//! How a decoded geometry is meant to be rendered. The rendering itself is
//! an external collaborator; only the choice between its two ways of
//! painting a path belongs to the library.

use vstd::prelude::*;

verus! {

/// How a path is painted: stroked as a line, or filled as an area.
#[derive(Debug, PartialEq, Eq, Clone, Copy)]
pub enum PathType {
    StrokeLine,
    Fill,
}

} // verus!
