//! Resolved types, as far as the rules read them.

use vstd::prelude::*;
use crate::paths::path_eq;

verus! {

/// A resolved type: a constructor applied to type arguments.
///
/// The constructor is named by a path. For a struct, an enum or a union that
/// is the path of its definition, as `alloc`, `vec`, `Vec`; for any other
/// type it is a name that the host gives to this constructor and to no other,
/// as `u32`. So `Vec<u32>` is `alloc::vec::Vec` applied to the one argument
/// `u32`, which is a constructor without arguments. What the host leaves out
/// of a type, as it may leave out lifetimes, the rules do not tell apart.
#[derive(Debug)]
pub struct Type {
    pub constructor: Vec<String>,
    pub args: Vec<Type>,
}

/// The mathematical value of a [`Type`].
pub struct TypeView {
    pub constructor: Seq<Seq<char>>,
    pub args: Seq<TypeView>,
}

impl View for Type {
    type V = TypeView;

    open spec fn view(&self) -> TypeView {
        self.shape()
    }
}

impl Type {
    /// The constructor and, recursively, the arguments.
    pub open spec fn shape(&self) -> TypeView
        decreases self,
    {
        TypeView {
            constructor: self.constructor.deep_view(),
            args: Seq::new(
                self.args.len() as nat,
                |i: int|
                    if 0 <= i < self.args.len() {
                        self.args[i].shape()
                    } else {
                        arbitrary()
                    },
            ),
        }
    }

    /// The view of a type is made of the views of its parts.
    pub proof fn lemma_view(&self)
        ensures
            self@.constructor == self.constructor.deep_view(),
            self@.args.len() == self.args.len(),
            forall|i: int| 0 <= i < self.args.len() ==> self@.args[i] == (#[trigger] self.args[i])@,
    {
    }

    /// Structural identity: the same constructor applied to structurally
    /// identical arguments, in the same number and order.
    pub fn same_type(&self, other: &Type) -> (same: bool)
        ensures
            same == (self@ == other@),
        decreases self,
    {
        proof {
            self.lemma_view();
            other.lemma_view();
        }
        if !path_eq(&self.constructor, &other.constructor) {
            return false;
        }
        if self.args.len() != other.args.len() {
            return false;
        }
        let mut i: usize = 0;
        while i < self.args.len()
            invariant
                self.args.len() == other.args.len(),
                i <= self.args.len(),
                self@.args.len() == self.args.len(),
                other@.args.len() == other.args.len(),
                forall|j: int| 0 <= j < self.args.len() ==> self@.args[j] == (#[trigger] self.args[j])@,
                forall|j: int| 0 <= j < other.args.len() ==> other@.args[j] == (#[trigger] other.args[j])@,
                self@.constructor == other@.constructor,
                forall|j: int| 0 <= j < i ==> self@.args[j] == other@.args[j],
            decreases self.args.len() - i,
        {
            if !self.args[i].same_type(&other.args[i]) {
                return false;
            }
            i += 1;
        }
        assert(self@.args =~= other@.args);
        true
    }
}

/// The two types that one call relates: what it returns and what it is
/// called on.
#[derive(Debug)]
pub struct TypePair {
    pub result: Type,
    pub receiver: Type,
}

/// The mathematical value of a [`TypePair`].
pub struct TypePairView {
    pub result: TypeView,
    pub receiver: TypeView,
}

impl View for TypePair {
    type V = TypePairView;

    open spec fn view(&self) -> TypePairView {
        TypePairView { result: self.result@, receiver: self.receiver@ }
    }
}

impl TypePairView {
    /// The call returns the type it was called on.
    pub open spec fn identical(self) -> bool {
        self.result == self.receiver
    }
}

impl TypePair {
    /// Whether the call returns the very type it was called on.
    pub fn identical(&self) -> (same: bool)
        ensures
            same == self@.identical(),
    {
        self.result.same_type(&self.receiver)
    }
}

/// What type inference found for one call: the two types, and whether values
/// of the result type are duplicated bit by bit (`Copy`).
#[derive(Debug)]
pub struct TypeContext {
    pub types: TypePair,
    pub result_is_copy: bool,
}

/// The mathematical value of a [`TypeContext`].
pub struct TypeContextView {
    pub types: TypePairView,
    pub result_is_copy: bool,
}

impl View for TypeContext {
    type V = TypeContextView;

    open spec fn view(&self) -> TypeContextView {
        TypeContextView { types: self.types@, result_is_copy: self.result_is_copy }
    }
}

} // verus!
