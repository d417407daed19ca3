//! Syntax checks on patterns: an assignment may not declare a binding mutable.

use vstd::prelude::*;
use crate::ast::Pattern;
use crate::error::{Error, ErrorInfo};
use crate::span::Spanned;

verus! {

broadcast use vstd::std_specs::vec::axiom_vec_decreases_to_view;

/// The error for the first binding of `p` that is declared mutable, in the order the pattern is
/// written, or `None` if there is none.
pub open spec fn mut_binding_error(p: Pattern) -> Option<Error>
    decreases p,
{
    match p {
        Pattern::Ident { ident, mut_kw } => match mut_kw {
            Some(s) => Some(Error { info: ErrorInfo::MutableAssignmentTarget(ident), span: s }),
            None => None,
        },
        Pattern::Tuple(_, pats) => pats_mut_error(pats@),
        Pattern::Array(pats) => pats_mut_error(pats@),
        Pattern::Fields(_, fields) => fields_mut_error(fields@),
        Pattern::As(l, r) => match mut_binding_error(l.0) {
            Some(e) => Some(e),
            None => mut_binding_error(r.0),
        },
        Pattern::Wildcard(o) => match o {
            Some(b) => mut_binding_error(b.0),
            None => None,
        },
    }
}

/// The first error of a sequence of patterns.
pub open spec fn pats_mut_error(s: Seq<Spanned<Pattern>>) -> Option<Error>
    decreases s,
{
    if s.len() == 0 {
        None
    } else {
        match pats_mut_error(s.drop_last()) {
            Some(e) => Some(e),
            None => mut_binding_error(s.last().0),
        }
    }
}

/// The first error of the fields of a field pattern.
pub open spec fn fields_mut_error(s: Seq<(Spanned<String>, Option<Box<Spanned<Pattern>>>)>) -> Option<
    Error,
>
    decreases s,
{
    if s.len() == 0 {
        None
    } else {
        match fields_mut_error(s.drop_last()) {
            Some(e) => Some(e),
            None => match s.last().1 {
                Some(b) => mut_binding_error(b.0),
                None => None,
            },
        }
    }
}

/// What a check returns: the error if there is one.
pub open spec fn check_result(e: Option<Error>) -> Result<(), Error> {
    match e {
        Some(e) => Err(e),
        None => Ok(()),
    }
}

/// An error in a prefix of a sequence of patterns is the error of the whole sequence.
proof fn lemma_pats_error_prefix(s: Seq<Spanned<Pattern>>, n: int)
    requires
        0 <= n <= s.len(),
        pats_mut_error(s.take(n)) is Some,
    ensures
        pats_mut_error(s) == pats_mut_error(s.take(n)),
    decreases s.len() - n,
{
    if n < s.len() {
        assert(s.take(n + 1).drop_last() =~= s.take(n));
        lemma_pats_error_prefix(s, n + 1);
    } else {
        assert(s.take(n) =~= s);
    }
}

/// An error in a prefix of the fields of a field pattern is the error of all of them.
proof fn lemma_fields_error_prefix(s: Seq<(Spanned<String>, Option<Box<Spanned<Pattern>>>)>, n: int)
    requires
        0 <= n <= s.len(),
        fields_mut_error(s.take(n)) is Some,
    ensures
        fields_mut_error(s) == fields_mut_error(s.take(n)),
    decreases s.len() - n,
{
    if n < s.len() {
        assert(s.take(n + 1).drop_last() =~= s.take(n));
        lemma_fields_error_prefix(s, n + 1);
    } else {
        assert(s.take(n) =~= s);
    }
}

/// Checks a sequence of patterns in order.
fn check_pats(s: &Vec<Spanned<Pattern>>) -> (r: Result<(), Error>)
    ensures
        r == check_result(pats_mut_error(s@)),
    decreases s,
{
    let mut i: usize = 0;
    assert(s@.take(0) =~= Seq::<Spanned<Pattern>>::empty());
    while i < s.len()
        invariant
            i <= s@.len(),
            pats_mut_error(s@.take(i as int)) is None,
        decreases s@.len() - i,
    {
        let r = s[i].0.assert_immutable_bindings();
        assert(s@.take(i + 1).drop_last() =~= s@.take(i as int));
        if r.is_err() {
            proof {
                lemma_pats_error_prefix(s@, i + 1);
            }
            return r;
        }
        i = i + 1;
    }
    assert(s@.take(i as int) =~= s@);
    Ok(())
}

/// Checks the fields of a field pattern in order.
fn check_fields(s: &Vec<(Spanned<String>, Option<Box<Spanned<Pattern>>>)>) -> (r: Result<
    (),
    Error,
>)
    ensures
        r == check_result(fields_mut_error(s@)),
    decreases s,
{
    let mut i: usize = 0;
    assert(s@.take(0) =~= Seq::<(Spanned<String>, Option<Box<Spanned<Pattern>>>)>::empty());
    while i < s.len()
        invariant
            i <= s@.len(),
            fields_mut_error(s@.take(i as int)) is None,
        decreases s@.len() - i,
    {
        assert(s@.take(i + 1).drop_last() =~= s@.take(i as int));
        match &s[i].1 {
            Some(b) => {
                let r = b.0.assert_immutable_bindings();
                if r.is_err() {
                    proof {
                        lemma_fields_error_prefix(s@, i + 1);
                    }
                    return r;
                }
            },
            None => {},
        }
        i = i + 1;
    }
    assert(s@.take(i as int) =~= s@);
    Ok(())
}

impl Pattern {
    /// Walks the pattern, ensuring that no binding is declared mutable; the first that is gives
    /// the error. This is used during syntax checking on assignment patterns.
    pub fn assert_immutable_bindings(&self) -> (r: Result<(), Error>)
        ensures
            r == check_result(mut_binding_error(*self)),
        decreases self,
    {
        match self {
            Pattern::Ident { ident, mut_kw } => {
                match mut_kw {
                    Some(span) => Err(
                        Error::mutable_assignment_target(*span, Spanned(ident.0.clone(), ident.1)),
                    ),
                    None => Ok(()),
                }
            },
            Pattern::Tuple(_, pats) => check_pats(pats),
            Pattern::Array(pats) => check_pats(pats),
            Pattern::Fields(_, fields) => check_fields(fields),
            Pattern::As(l, r) => {
                let first = l.0.assert_immutable_bindings();
                if first.is_err() {
                    first
                } else {
                    r.0.assert_immutable_bindings()
                }
            },
            Pattern::Wildcard(o) => match o {
                Some(b) => b.0.assert_immutable_bindings(),
                None => Ok(()),
            },
        }
    }
}

} // verus!
