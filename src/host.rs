use crate::scope::{FrameModel, Scope};
use crate::value::{Number, Value, ValueModel};
use vstd::prelude::*;

verus! {

/// Text as the contracts see it.
pub type Chars = Seq<char>;

/// A sequence of argument values as the contracts see it.
pub type Values = Seq<ValueModel>;

/// What the embedding program supplies to the evaluator: double-precision
/// arithmetic, conversion between numbers and text, and the bodies of native
/// functions. Each result is named by a spec function of the host: it depends
/// on the host's state and the arguments alone.
pub trait Host: Sized {
    /// The bits of `a + b` for the doubles with bits `a` and `b`.
    spec fn sum_of(&self, a: u64, b: u64) -> u64;

    spec fn difference_of(&self, a: u64, b: u64) -> u64;

    spec fn product_of(&self, a: u64, b: u64) -> u64;

    spec fn quotient_of(&self, a: u64, b: u64) -> u64;

    /// The number that `text` spells as a float literal, if it spells one.
    spec fn parse_of(&self, text: Chars) -> Option<u64>;

    /// The canonical decimal text of a number.
    spec fn text_of(&self, n: u64) -> Chars;

    /// What native `id` does when called with the global frame and the
    /// arguments: the host's next state, the global frame after, the result.
    spec fn native_of(&self, id: usize, global: FrameModel, args: Values) -> (Self, FrameModel, ValueModel);

    fn sum(&self, a: Number, b: Number) -> (r: Number)
        ensures
            r.bits == self.sum_of(a.bits, b.bits),
    ;

    fn difference(&self, a: Number, b: Number) -> (r: Number)
        ensures
            r.bits == self.difference_of(a.bits, b.bits),
    ;

    fn product(&self, a: Number, b: Number) -> (r: Number)
        ensures
            r.bits == self.product_of(a.bits, b.bits),
    ;

    fn quotient(&self, a: Number, b: Number) -> (r: Number)
        ensures
            r.bits == self.quotient_of(a.bits, b.bits),
    ;

    fn parse_number(&self, text: &str) -> (r: Option<Number>)
        ensures
            r matches Some(n) ==> self.parse_of(text@) == Some(n.bits),
            r is None ==> self.parse_of(text@) is None,
    ;

    fn number_text(&self, n: Number) -> (r: String)
        ensures
            r@ == self.text_of(n.bits),
    ;

    /// Runs the native function registered under `id`, with the global frame
    /// and the evaluated arguments.
    fn call_native(&mut self, id: usize, global: &mut Scope, args: &[Value]) -> (r: Value)
        ensures
            (*final(self), final(global)@, r@) == old(self).native_of(
                id,
                old(global)@,
                args@.map_values(|v: Value| v@),
            ),
    ;
}

} // verus!
