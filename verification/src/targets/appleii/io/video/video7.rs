use vstd::prelude::*;

use crate::targets::appleii::io::soft_switches::{Switch, SwitchUpdate};
use crate::targets::appleii::io::video::VideoMode;

verus! {

/// A sequence of switch changes that selects a video mode, and how much of it has been
/// seen.
pub struct Video7StateMachine {
    pub mode: VideoMode,
    pub states: Vec<(Switch, bool)>,
    pub state: usize,
}

/// A machine can run: a sequence of at least two steps, and a position inside it.
pub open spec fn fsm_wf(m: Video7StateMachine) -> bool {
    m.states@.len() >= 2 && m.state < m.states@.len()
}

/// A switch change seen by a machine: HIRES turning on starts the sequence over (its first
/// step done); the expected change moves it on, and completing the sequence selects the
/// mode and starts over; anything else leaves it where it is.
pub open spec fn fsm_step(m: Video7StateMachine, switch: Switch, value: bool) -> (usize, Option<VideoMode>) {
    if switch == Switch::HiresMode && value {
        (1, None)
    } else if switch == m.states@[m.state as int].0 && value == m.states@[m.state as int].1 {
        if m.state + 1 == m.states@.len() {
            (0, Some(m.mode))
        } else {
            ((m.state + 1) as usize, None)
        }
    } else {
        (m.state, None)
    }
}

/// Watches the soft switches for the sequences by which software selects a Video-7 mode.
pub struct Video7Listener {
    pub state_machines: Vec<Video7StateMachine>,
}

/// The machines after a switch change, and the mode the last completed sequence selects.
pub open spec fn listener_step(ms: Seq<Video7StateMachine>, switch: Switch, value: bool) -> (Seq<usize>, Option<VideoMode>)
    decreases ms.len(),
{
    if ms.len() == 0 {
        (Seq::empty(), None)
    } else {
        let (states, mode) = listener_step(ms.drop_last(), switch, value);
        let (s, m) = fsm_step(ms.last(), switch, value);
        (states.push(s), if m is Some { m } else { mode })
    }
}

proof fn lemma_listener_step_len(ms: Seq<Video7StateMachine>, switch: Switch, value: bool)
    ensures
        listener_step(ms, switch, value).0.len() == ms.len(),
    decreases ms.len(),
{
    if ms.len() > 0 {
        lemma_listener_step_len(ms.drop_last(), switch, value);
    }
}

impl Video7Listener {
    /// The sequence for black and white double high resolution: HIRES on, MIXED off,
    /// 80COL off, then AN3 off, on, off, on, off.
    pub fn new() -> (l: Video7Listener)
        ensures
            l.state_machines@.len() == 1,
            l.state_machines@[0].mode == VideoMode::Video7BlackWhite,
            l.state_machines@[0].state == 0,
            l.state_machines@[0].states@ == seq![
                (Switch::HiresMode, true),
                (Switch::MixMode, false),
                (Switch::Eightycol, false),
                (Switch::An3, false),
                (Switch::An3, true),
                (Switch::An3, false),
                (Switch::An3, true),
                (Switch::An3, false),
            ],
    {
        let mut states: Vec<(Switch, bool)> = Vec::new();
        states.push((Switch::HiresMode, true));
        states.push((Switch::MixMode, false));
        states.push((Switch::Eightycol, false));
        states.push((Switch::An3, false));
        states.push((Switch::An3, true));
        states.push((Switch::An3, false));
        states.push((Switch::An3, true));
        states.push((Switch::An3, false));
        let mut state_machines: Vec<Video7StateMachine> = Vec::new();
        state_machines.push(Video7StateMachine { mode: VideoMode::Video7BlackWhite, states, state: 0 });
        let l = Video7Listener { state_machines };
        assert(l.state_machines@[0].states@ =~= seq![
            (Switch::HiresMode, true),
            (Switch::MixMode, false),
            (Switch::Eightycol, false),
            (Switch::An3, false),
            (Switch::An3, true),
            (Switch::An3, false),
            (Switch::An3, true),
            (Switch::An3, false),
        ]);
        l
    }

    /// A soft switch changed; returns the mode to select, if a sequence completed.
    pub fn on_updated(&mut self, update: SwitchUpdate) -> (r: Option<VideoMode>)
        requires
            forall|i: int| 0 <= i < old(self).state_machines@.len() ==> fsm_wf(#[trigger] old(self).state_machines@[i]),
        ensures
            final(self).state_machines@.len() == old(self).state_machines@.len(),
            forall|i: int| 0 <= i < final(self).state_machines@.len() ==> fsm_wf(#[trigger] final(self).state_machines@[i]),
            ({
                let (states, mode) = listener_step(old(self).state_machines@, update.switch, update.value);
                &&& r == mode
                &&& forall|i: int| 0 <= i < final(self).state_machines@.len() ==> {
                    &&& (#[trigger] final(self).state_machines@[i]).state == states[i]
                    &&& final(self).state_machines@[i].mode == old(self).state_machines@[i].mode
                    &&& final(self).state_machines@[i].states@ == old(self).state_machines@[i].states@
                }
            }),
    {
        let n = self.state_machines.len();
        let mut result: Option<VideoMode> = None;
        let mut i: usize = 0;
        while i < n
            invariant
                i <= n,
                n == self.state_machines@.len(),
                n == old(self).state_machines@.len(),
                forall|k: int| 0 <= k < n ==> fsm_wf(#[trigger] self.state_machines@[k]),
                forall|k: int| i <= k < n ==> self.state_machines@[k] == old(self).state_machines@[k],
                ({
                    let (states, mode) = listener_step(old(self).state_machines@.take(i as int), update.switch, update.value);
                    &&& result == mode
                    &&& forall|k: int| 0 <= k < i ==> {
                        &&& (#[trigger] self.state_machines@[k]).state == states[k]
                        &&& self.state_machines@[k].mode == old(self).state_machines@[k].mode
                        &&& self.state_machines@[k].states@ == old(self).state_machines@[k].states@
                    }
                }),
            decreases n - i,
        {
            let mut fsm = self.state_machines.remove(i);
            let ghost before = fsm;
            assert(fsm == old(self).state_machines@[i as int]);
            assert(fsm_wf(fsm));
            proof {
                lemma_listener_step_len(old(self).state_machines@.take(i as int), update.switch, update.value);
                lemma_listener_step_len(old(self).state_machines@.take(i + 1), update.switch, update.value);
            }
            let ghost (s_spec, m_spec) = fsm_step(before, update.switch, update.value);
            let len = fsm.states.len();
            let mut selected: Option<VideoMode> = None;
            if update.switch == Switch::HiresMode && update.value {
                fsm.state = 1;
            } else {
                let (sw, val) = fsm.states[fsm.state];
                if update.switch == sw && update.value == val {
                    fsm.state += 1;
                    if fsm.state == len {
                        selected = Some(fsm.mode);
                        fsm.state = 0;
                    }
                }
            }
            assert(fsm.state == s_spec && selected == m_spec);
            if selected.is_some() {
                result = selected;
            }
            self.state_machines.insert(i, fsm);
            proof {
                let t = old(self).state_machines@.take(i + 1);
                assert(t.drop_last() =~= old(self).state_machines@.take(i as int));
                assert(t.last() == before);
            }
            i += 1;
        }
        assert(old(self).state_machines@.take(n as int) =~= old(self).state_machines@);
        proof {
            lemma_listener_step_len(old(self).state_machines@, update.switch, update.value);
        }
        result
    }
}

} // verus!

verus! {

/// A machine after a run of switch changes, and the mode the last step selected, if any.
pub open spec fn fsm_run(m: Video7StateMachine, updates: Seq<(Switch, bool)>) -> (usize, Option<VideoMode>)
    decreases updates.len(),
{
    if updates.len() == 0 {
        (m.state, None)
    } else {
        let (state, _) = fsm_run(m, updates.drop_last());
        fsm_step(Video7StateMachine { state, ..m }, updates.last().0, updates.last().1)
    }
}

/// A machine that has seen the first step of its sequence (HIRES on, from any position)
/// selects its mode once the rest of the sequence follows, and starts over.
pub proof fn lemma_sequence_selects_mode(m: Video7StateMachine)
    requires
        fsm_wf(m),
        m.states@ == seq![
            (Switch::HiresMode, true),
            (Switch::MixMode, false),
            (Switch::Eightycol, false),
            (Switch::An3, false),
            (Switch::An3, true),
            (Switch::An3, false),
            (Switch::An3, true),
            (Switch::An3, false),
        ],
    ensures
        fsm_run(m, m.states@) == (0usize, Some(m.mode)),
{
    let s = m.states@;
    reveal_with_fuel(fsm_run, 9);
    assert(s.take(1).drop_last() =~= s.take(0));
    assert(s.take(2).drop_last() =~= s.take(1));
    assert(s.take(3).drop_last() =~= s.take(2));
    assert(s.take(4).drop_last() =~= s.take(3));
    assert(s.take(5).drop_last() =~= s.take(4));
    assert(s.take(6).drop_last() =~= s.take(5));
    assert(s.take(7).drop_last() =~= s.take(6));
    assert(s.drop_last() =~= s.take(7));
    assert(fsm_run(m, s.take(1)).0 == 1);
    assert(fsm_run(m, s.take(2)).0 == 2);
    assert(fsm_run(m, s.take(3)).0 == 3);
    assert(fsm_run(m, s.take(4)).0 == 4);
    assert(fsm_run(m, s.take(5)).0 == 5);
    assert(fsm_run(m, s.take(6)).0 == 6);
    assert(fsm_run(m, s.take(7)).0 == 7);
}

} // verus!
