use vstd::prelude::*;

verus! {

/// The operating system the library runs on; several decisions differ per platform.
#[derive(Clone, Copy, Debug, PartialEq, Eq, Structural)]
pub enum Platform {
    Windows,
    MacOs,
    Linux,
    Android,
}

} // verus!
