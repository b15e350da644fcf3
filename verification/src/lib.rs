//! Board logic of the nRF52840 security-key runner: version handling, the
//! QSPI flash transfer rules, button interrupt sources and the power-off plan.
pub mod version;
pub mod qspi;
pub mod board;
pub mod power;
