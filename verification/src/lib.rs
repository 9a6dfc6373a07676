//! Immediate-mode chart panels: the per-frame life of a panel, the series it is
//! handed, axis ranges shared between panels, and the stack of style overrides.
//!
//! The library holds no renderer. A host draws with whatever backend it has and
//! hands the backend's readings to the panel, which decides what is valid when.
//! A coordinate in the data is an IEEE 754 double carried as its 64 bits; a
//! size or a coordinate on the screen is a single carried as its 32 bits. All
//! are stored and handed back exactly.

pub mod error;
pub mod style;
pub mod series;
pub mod axis;
pub mod ticks;
pub mod panel;
pub mod linked;
