//! Edge-triggered press adapter.
//!
//! A boolean action is sampled once per tick. Whenever the sample differs
//! from the one remembered from the previous tick, every listening pointer
//! receives one press event: `Down` on a rising edge, `Up` on a falling one.
//! The adapter owns nothing but the remembered sample; the action state, the
//! listeners and the event sink all belong to the caller.

pub mod event;
pub mod edge;
pub mod adapter;
pub mod trace;
pub mod laws;
