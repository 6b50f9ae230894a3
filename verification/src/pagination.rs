//! Assembling a full range query from its pages.
//!
//! A paged endpoint returns entries plus an opaque continuation cursor; the
//! scan is complete when a page reports no cursor.  The assembler
//! concatenates the pages' entries in arrival order, so driving it with the
//! page dialogue of a facade yields exactly the entries of the whole range.
//! If any page fails, the caller drops the assembler: partial results are
//! never returned.

use vstd::prelude::*;

verus! {

/// Collects the entries of a paged range query, page by page.
#[derive(Debug)]
pub struct PageAssembler<T> {
    /// The entries of every page absorbed so far, in order.
    pub items: Vec<T>,
    /// Whether a page without a continuation cursor has been absorbed.
    pub finished: bool,
}

impl<T> PageAssembler<T> {
    /// An empty, unfinished assembler.
    pub fn new() -> (r: Self)
        ensures
            r.items@ =~= Seq::<T>::empty(),
            !r.finished,
    {
        PageAssembler { items: Vec::new(), finished: false }
    }

    /// Absorb one page: its entries are appended after everything already
    /// collected, keeping both orders, and the scan is finished exactly
    /// when the page reported no continuation cursor.
    pub fn absorb(&mut self, page: Vec<T>, next: &Option<String>)
        requires
            !old(self).finished,
        ensures
            final(self).items@ == old(self).items@ + page@,
            final(self).finished == (*next is None),
    {
        let mut page = page;
        self.items.append(&mut page);
        self.finished = next.is_none();
    }

    /// Hand the collected entries out.
    pub fn into_items(self) -> (r: Vec<T>)
        ensures
            r@ == self.items@,
    {
        self.items
    }
}

} // verus!
