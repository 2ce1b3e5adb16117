//! Definition paths: the ordered namespace segments that name an item, such
//! as `alloc`, `vec`, `Vec`.

use vstd::prelude::*;

verus! {

/// Whether two paths hold the same segments in the same order. A path never
/// equals one of its proper prefixes.
pub fn path_eq(a: &Vec<String>, b: &Vec<String>) -> (same: bool)
    ensures
        same == (a.deep_view() == b.deep_view()),
{
    if a.len() != b.len() {
        assert(a.deep_view().len() != b.deep_view().len());
        return false;
    }
    let mut i: usize = 0;
    while i < a.len()
        invariant
            a.len() == b.len(),
            i <= a.len(),
            forall|j: int| 0 <= j < i ==> a[j]@ == b[j]@,
        decreases a.len() - i,
    {
        if a[i] != b[i] {
            assert(a.deep_view()[i as int] != b.deep_view()[i as int]);
            return false;
        }
        i += 1;
    }
    assert(a.deep_view() =~= b.deep_view());
    true
}

/// A method of a named type: the path of the type and the method's name.
#[derive(Debug)]
pub struct MethodSignature {
    pub type_path: Vec<String>,
    pub method: String,
}

/// The mathematical value of a [`MethodSignature`].
pub struct MethodSignatureView {
    pub type_path: Seq<Seq<char>>,
    pub method: Seq<char>,
}

impl View for MethodSignature {
    type V = MethodSignatureView;

    open spec fn view(&self) -> MethodSignatureView {
        MethodSignatureView { type_path: self.type_path.deep_view(), method: self.method@ }
    }
}

impl DeepView for MethodSignature {
    type V = MethodSignatureView;

    open spec fn deep_view(&self) -> MethodSignatureView {
        self@
    }
}

impl MethodSignatureView {
    /// The signature names exactly this method of exactly this type.
    pub open spec fn names(self, type_path: Seq<Seq<char>>, method: Seq<char>) -> bool {
        self.type_path == type_path && self.method == method
    }
}

impl MethodSignature {
    /// Whether the signature names the method `method` of the type at
    /// `type_path`: both must agree in full.
    pub fn names(&self, type_path: &Vec<String>, method: &String) -> (hit: bool)
        ensures
            hit == self@.names(type_path.deep_view(), method@),
    {
        path_eq(&self.type_path, type_path) && self.method == *method
    }
}

} // verus!
