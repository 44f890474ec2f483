//! System control unit: watchdogs and clock control.
pub mod ccu;
pub mod wdt;
