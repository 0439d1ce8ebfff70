//! Boxed roots: a rooted OCaml value that can be moved around and read
//! again later.

use crate::memory::OCamlCell;
use crate::runtime::OCamlRuntime;
use crate::value::OCaml;
use vstd::prelude::*;

verus! {

/// `BoxRoot<T>` is a container for a rooted [`OCaml`]`<T>` value. (In this
/// library's model the OCaml heap never moves a block, so the root holds
/// the value itself.)
pub struct BoxRoot<T> {
    cell: OCamlCell<T>,
}

impl<T> View for BoxRoot<T> {
    type V = crate::mlvalues::RawOCaml;

    closed spec fn view(&self) -> crate::mlvalues::RawOCaml {
        self.cell@
    }
}

impl<T> BoxRoot<T> {
    /// Creates a new root from an [`OCaml`]`<T>` value.
    pub fn new(val: OCaml<T>) -> (r: BoxRoot<T>)
        ensures
            r@ == val@,
    {
        BoxRoot { cell: OCamlCell::new(val) }
    }

    /// Gets the value stored in this root as an [`OCaml`]`<T>`.
    pub fn get(&self, cr: &OCamlRuntime) -> (r: OCaml<T>)
        ensures
            r@ == self@,
    {
        OCaml::new(cr, self.cell.get_raw())
    }

    /// Roots the OCaml value `val` in place of the one held, returning a
    /// reference to the root's cell.
    pub fn keep(&mut self, val: OCaml<T>) -> (r: &OCamlCell<T>)
        ensures
            final(self)@ == val@,
            r@ == val@,
    {
        self.cell = OCamlCell::new(val);
        &self.cell
    }

    /// The cell of the root.
    pub fn get_ref(&self) -> (r: &OCamlCell<T>)
        ensures
            r@ == self@,
    {
        &self.cell
    }
}

impl<T> OCaml<T> {
    /// Roots this value.
    pub fn root(self) -> (r: BoxRoot<T>)
        ensures
            r@ == self@,
    {
        BoxRoot::new(self)
    }
}

} // verus!
