//! User functions that declarations carry: the key of a message and its size.
use std::sync::Arc;
use vstd::prelude::*;
use vstd::std_specs::cmp::PartialEqSpec;

verus! {

/// Compares the keys of two messages.
trait CompareKeys<M>: Send + Sync {
    /// Any two messages can be compared.
    spec fn total(&self) -> bool;

    /// `same` is an answer that a comparison of `left` and `right` may give.
    spec fn answers(&self, left: M, right: M, same: bool) -> bool;

    /// Reports whether the keys of both messages are equal.
    fn compare(&self, left: &M, right: &M) -> (same: bool)
        requires
            self.total(),
        ensures
            self.answers(*left, *right, same),
    ;
}

/// Compares messages with a function.
struct MatchFunction<F> {
    compare: F,
}

/// `compare` compares any two messages.
spec fn is_comparison<M, F: Fn(&M, &M) -> bool>(compare: F) -> bool {
    forall|left: &M, right: &M| #[trigger] call_requires(compare, (left, right))
}

/// `key` takes a key from any message.
pub open spec fn is_key<M, K, F: Fn(&M) -> K>(key: F) -> bool {
    forall|message: &M| #[trigger] call_requires(key, (message,))
}

/// `same` tells whether the keys that `key` takes from both messages are equal,
/// as `==` of the keys has it.
pub open spec fn keys_compare<M, K: Eq, F: Fn(&M) -> K>(
    key: &F,
    left: M,
    right: M,
    same: bool,
) -> bool {
    exists|l: K, r: K|
        {
            &&& #[trigger] call_ensures(*key, (&left,), l)
            &&& #[trigger] call_ensures(*key, (&right,), r)
            &&& K::obeys_eq_spec() ==> same == l.eq_spec(&r)
        }
}

impl<M, F: Fn(&M, &M) -> bool + Send + Sync> CompareKeys<M> for MatchFunction<F> {
    spec fn total(&self) -> bool {
        is_comparison::<M, F>(self.compare)
    }

    spec fn answers(&self, left: M, right: M, same: bool) -> bool {
        call_ensures(self.compare, (&left, &right), same)
    }

    fn compare(&self, left: &M, right: &M) -> (same: bool) {
        (self.compare)(left, right)
    }
}

/// Tells whether two messages belong to the same slot of a keyed mailbox.
#[verifier::reject_recursive_types(M)]
pub struct KeyMatcher<M> {
    comparison: Arc<Box<dyn CompareKeys<M>>>,
}

impl<M> KeyMatcher<M> {
    #[verifier::type_invariant]
    spec fn total(self) -> bool {
        self.comparison.total()
    }

    /// `same` is an answer that a comparison of `left` and `right` may give.
    pub closed spec fn answers(&self, left: M, right: M, same: bool) -> bool {
        self.comparison.answers(left, right, same)
    }

    /// Compares messages with `compare`.
    fn comparing<F: Fn(&M, &M) -> bool + Send + Sync + 'static>(compare: F) -> (matcher: Self)
        requires
            is_comparison::<M, F>(compare),
        ensures
            forall|left: M, right: M, same: bool| #[trigger]
                matcher.answers(left, right, same) <==> call_ensures(
                    compare,
                    (&left, &right),
                    same,
                ),
    {
        let given: Box<MatchFunction<F>> = Box::new(MatchFunction { compare });
        let ghost comparison = *given;
        let function: Box<dyn CompareKeys<M>> = given;
        proof {
            assert(CompareKeys::<M>::total(&comparison));
            assert forall|left: M, right: M, same: bool| #[trigger]
                function.answers(left, right, same) == call_ensures(
                    compare,
                    (&left, &right),
                    same,
                ) by {
                assert(CompareKeys::<M>::answers(&comparison, left, right, same) == call_ensures(
                    compare,
                    (&left, &right),
                    same,
                ));
            }
        }
        let comparison = Arc::new(function);
        KeyMatcher { comparison }
    }

    /// Compares messages by `key`.
    pub fn by_key<K, F>(key: F) -> (matcher: Self) where
        K: Eq,
        F: Fn(&M) -> K + Send + Sync + 'static,

        requires
            is_key::<M, K, F>(key),
        ensures
            forall|left: M, right: M, same: bool| #[trigger]
                matcher.answers(left, right, same) ==> keys_compare(&key, left, right, same),
    {
        let compare = move |left: &M, right: &M| -> (same: bool)
            ensures
                keys_compare(&key, *left, *right, same),
            {
                let l = key(left);
                let r = key(right);
                l == r
            };
        KeyMatcher::comparing(compare)
    }

    /// Reports whether both messages belong to the same slot.
    pub fn matches(&self, left: &M, right: &M) -> (same: bool)
        ensures
            self.answers(*left, *right, same),
    {
        proof {
            use_type_invariant(self);
        }
        self.comparison.compare(left, right)
    }
}

impl<M> Clone for KeyMatcher<M> {
    fn clone(&self) -> (matcher: Self)
        ensures
            matcher == *self,
    {
        proof {
            use_type_invariant(self);
        }
        KeyMatcher { comparison: Arc::clone(&self.comparison) }
    }
}

/// Measures messages.
trait MeasureMessage<M>: Send + Sync {
    /// Any message can be measured.
    spec fn total(&self) -> bool;

    /// `size` is what measuring `message` may give.
    spec fn measures(&self, message: M, size: usize) -> bool;

    /// Returns the size of a message.
    fn measure(&self, message: &M) -> (size: usize)
        requires
            self.total(),
        ensures
            self.measures(*message, size),
    ;
}

/// Measures messages with a function.
struct SizeFunction<F> {
    size: F,
}

/// `size` measures any message.
pub open spec fn is_sizer<M, F: Fn(&M) -> usize>(size: F) -> bool {
    forall|message: &M| #[trigger] call_requires(size, (message,))
}

impl<M, F: Fn(&M) -> usize + Send + Sync> MeasureMessage<M> for SizeFunction<F> {
    spec fn total(&self) -> bool {
        is_sizer::<M, F>(self.size)
    }

    spec fn measures(&self, message: M, size: usize) -> bool {
        call_ensures(self.size, (&message,), size)
    }

    fn measure(&self, message: &M) -> (size: usize) {
        (self.size)(message)
    }
}

/// Reports how many bytes a message counts for.
#[verifier::reject_recursive_types(M)]
pub struct SizeHint<M> {
    measurement: Arc<Box<dyn MeasureMessage<M>>>,
}

impl<M> SizeHint<M> {
    #[verifier::type_invariant]
    spec fn total(self) -> bool {
        self.measurement.total()
    }

    /// `size` is what measuring `message` may give.
    pub closed spec fn measures(&self, message: M, size: usize) -> bool {
        self.measurement.measures(message, size)
    }

    /// Measures messages with `size`.
    pub fn new<F>(size: F) -> (hint: Self) where F: Fn(&M) -> usize + Send + Sync + 'static
        requires
            is_sizer::<M, F>(size),
        ensures
            forall|message: M, bytes: usize| #[trigger]
                hint.measures(message, bytes) <==> call_ensures(size, (&message,), bytes),
    {
        let given: Box<SizeFunction<F>> = Box::new(SizeFunction { size });
        let ghost measurement = *given;
        let function: Box<dyn MeasureMessage<M>> = given;
        proof {
            assert(MeasureMessage::<M>::total(&measurement));
            assert forall|message: M, bytes: usize| #[trigger]
                function.measures(message, bytes) == call_ensures(size, (&message,), bytes) by {
                assert(MeasureMessage::<M>::measures(&measurement, message, bytes) == call_ensures(
                    size,
                    (&message,),
                    bytes,
                ));
            }
        }
        let measurement = Arc::new(function);
        SizeHint { measurement }
    }

    /// Returns the size of a message.
    pub fn measure(&self, message: &M) -> (size: usize)
        ensures
            self.measures(*message, size),
    {
        proof {
            use_type_invariant(self);
        }
        self.measurement.measure(message)
    }
}

impl<M> Clone for SizeHint<M> {
    fn clone(&self) -> (hint: Self)
        ensures
            hint == *self,
    {
        proof {
            use_type_invariant(self);
        }
        SizeHint { measurement: Arc::clone(&self.measurement) }
    }
}

} // verus!
