pub mod single_val_channel;
