//! Plain description of a type declaration, as read from its syntax.

use vstd::prelude::*;

verus! {

/// One segment of a path: its identifier, and whether it carries generic
/// or parenthesized arguments (`Option<T>`, `Fn(A)`).
pub struct PathSegment {
    pub ident: String,
    pub has_arguments: bool,
}

/// A path such as `std::option::Option<T>` or an attribute's `fusion`.
pub struct PathDecl {
    pub leading_colon: bool,
    pub segments: Vec<PathSegment>,
}

/// The declared type of a field: a path type, or any other form
/// (reference, tuple, array, ...).
pub enum TypeDecl {
    Path(PathDecl),
    Other,
}

/// A field of a declaration: its name (absent in a tuple struct), its
/// declared type, and the paths of the attributes attached to it.
pub struct FieldDecl {
    pub name: Option<String>,
    pub ty: TypeDecl,
    pub attributes: Vec<PathDecl>,
}

/// A type declaration handed to the derive.
pub enum ItemDecl {
    Struct { name: String, fields: Vec<FieldDecl> },
    Enum { name: String },
    Union { name: String },
}

/// The identifiers of a path's segments, in order.
pub open spec fn path_idents(p: PathDecl) -> Seq<Seq<char>> {
    Seq::new(p.segments@.len(), |i: int| p.segments@[i].ident@)
}

/// The spellings under which the optional-value wrapper is recognised.
pub open spec fn is_option_idents(ids: Seq<Seq<char>>) -> bool {
    ||| ids == seq!["Option"@]
    ||| ids == seq!["std"@, "option"@, "Option"@]
    ||| ids == seq!["core"@, "option"@, "Option"@]
}

/// A field type is optional when it is a path spelled as the wrapper.
pub open spec fn is_option_type(t: TypeDecl) -> bool {
    match t {
        TypeDecl::Path(p) => is_option_idents(path_idents(p)),
        TypeDecl::Other => false,
    }
}

/// A path is the single identifier `fusion`: no leading `::`, one segment,
/// no arguments.
pub open spec fn is_marker_path(p: PathDecl) -> bool {
    &&& !p.leading_colon
    &&& p.segments@.len() == 1
    &&& !p.segments@[0].has_arguments
    &&& p.segments@[0].ident@ == "fusion"@
}

/// A field asks for recursive merging when one of its attributes is the
/// marker.
pub open spec fn has_marker(attrs: Seq<PathDecl>) -> bool {
    exists|i: int| 0 <= i < attrs.len() && is_marker_path(#[trigger] attrs[i])
}

fn text_is(s: &String, lit: &str) -> (r: bool)
    ensures
        r == (s@ == lit@),
{
    *s == lit.to_owned()
}

/// Whether the idents of `p` are `expected`, one for one.
fn idents_are(p: &PathDecl, expected: &Vec<&str>) -> (r: bool)
    ensures
        r == (path_idents(*p) == Seq::new(expected@.len(), |i: int| expected@[i]@)),
{
    let ghost want = Seq::new(expected@.len(), |i: int| expected@[i]@);
    if p.segments.len() != expected.len() {
        assert(path_idents(*p).len() != want.len());
        return false;
    }
    let mut i: usize = 0;
    while i < p.segments.len()
        invariant
            p.segments.len() == expected.len(),
            want == Seq::new(expected@.len(), |i: int| expected@[i]@),
            0 <= i <= p.segments.len(),
            forall|j: int| 0 <= j < i ==> path_idents(*p)[j] == want[j],
        decreases p.segments.len() - i,
    {
        if !text_is(&p.segments[i].ident, expected[i]) {
            assert(path_idents(*p)[i as int] != want[i as int]);
            return false;
        }
        i = i + 1;
    }
    assert(path_idents(*p) =~= want);
    true
}

/// Whether a field's declared type is the optional-value wrapper.
pub fn is_option(t: &TypeDecl) -> (r: bool)
    ensures
        r == is_option_type(*t),
{
    match t {
        TypeDecl::Path(p) => {
            let a = vec!["Option"];
            let b = vec!["std", "option", "Option"];
            let c = vec!["core", "option", "Option"];
            let ra = idents_are(p, &a);
            let rb = idents_are(p, &b);
            let rc = idents_are(p, &c);
            assert(Seq::new(a@.len(), |i: int| a@[i]@) =~= seq!["Option"@]);
            assert(Seq::new(b@.len(), |i: int| b@[i]@) =~= seq!["std"@, "option"@, "Option"@]);
            assert(Seq::new(c@.len(), |i: int| c@[i]@) =~= seq!["core"@, "option"@, "Option"@]);
            ra || rb || rc
        },
        TypeDecl::Other => false,
    }
}

/// Whether `p` is the marker path `fusion`.
pub fn is_marker(p: &PathDecl) -> (r: bool)
    ensures
        r == is_marker_path(*p),
{
    !p.leading_colon && p.segments.len() == 1 && !p.segments[0].has_arguments
        && text_is(&p.segments[0].ident, "fusion")
}

/// Whether one of the attributes is the marker asking for recursive merging.
pub fn marked_recursive(attrs: &Vec<PathDecl>) -> (r: bool)
    ensures
        r == has_marker(attrs@),
{
    let mut i: usize = 0;
    while i < attrs.len()
        invariant
            0 <= i <= attrs.len(),
            forall|j: int| 0 <= j < i ==> !is_marker_path(#[trigger] attrs@[j]),
        decreases attrs.len() - i,
    {
        if is_marker(&attrs[i]) {
            return true;
        }
        i = i + 1;
    }
    false
}

} // verus!
