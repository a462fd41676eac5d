//! A minimal calculator core: two operands, four arithmetic operations,
//! and a reducer that turns user-interface events into the next state.
//!
//! The core never touches the host's numeric type. Operand values pass
//! through it opaquely, and the combined values that a computation can
//! store are handed in by the host together with the computation event;
//! the reducer's job — and what is proved here — is which field changes
//! on which event, which value is selected, and which fields stay put.

pub mod op;
pub mod state;
