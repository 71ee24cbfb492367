pub mod iic_bank;
