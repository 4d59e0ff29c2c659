//! Locality-aware ordering: comparisons split into a phase that reads only data stored in a
//! record itself and a phase that follows an indirection, and a binary search that uses the
//! split to resolve neighbouring records from an already loaded cache line.

pub mod locality;
pub mod traits;
pub mod cami;
pub mod cf_wrap;
pub mod impls;
pub mod search;
pub mod slices;

pub use cami::{
    Cami, IntoCami, IntoCamiClone, IntoCamiCopy, IntoRefCami, IntoSliceCami, IntoVecCami,
};
pub use cf_wrap::CfWrap;
pub use locality::Locality;
pub use search::Slice;
pub use traits::{CamiOrd, CamiPartialEq, CamiPartialOrd};
