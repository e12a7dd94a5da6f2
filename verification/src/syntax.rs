//! The syntax tree that the front end hands over, as far as extraction
//! reads it.

use crate::model::opt_view;
use crate::model::QualType;
use vstd::prelude::*;

verus! {

/// The kinds of node that extraction tells apart.
#[derive(Debug, Clone, Copy, PartialEq, Eq, Structural)]
pub enum NodeKind {
    CXXRecordDecl,
    EnumDecl,
    FunctionDecl,
    AccessSpecDecl,
    CXXConstructorDecl,
    CXXMethodDecl,
    FieldDecl,
    EnumConstantDecl,
    ConstantExpr,
    ParmVarDecl,
    Other,
}

/// A place in the source text, as byte offsets: where the token is spelled
/// and where the text it came from by expansion stands.
#[derive(Debug, Clone, Copy, PartialEq, Eq, Structural)]
pub struct SourceSpot {
    pub spelling: Option<usize>,
    pub expansion: Option<usize>,
}

/// The stretch of source text of a declaration.
#[derive(Debug, Clone, Copy, PartialEq, Eq, Structural)]
pub struct SourceSpan {
    pub begin: SourceSpot,
    pub end: SourceSpot,
}

/// What a node of the syntax tree says of its declaration.
#[derive(Debug, PartialEq, Eq)]
pub struct Clang {
    pub kind: NodeKind,
    pub loc: Option<SourceSpot>,
    pub range: Option<SourceSpan>,
    pub name: String,
    /// The front end could not make sense of the declaration; its type
    /// string is then not to be relied on.
    pub is_invalid: bool,
    pub storage_class: Option<String>,
    pub ty: Option<QualType>,
    pub access: String,
    pub tag_used: String,
    /// The literal of a constant expression.
    pub value: Option<String>,
    pub scoped_enum_tag: Option<String>,
    pub explicitly_deleted: bool,
}

/// A node of the syntax tree with its children.
#[derive(Debug, PartialEq, Eq)]
pub struct Node {
    pub kind: Clang,
    pub inner: Vec<Node>,
}

/// The type string of a declaration, where the front end gave one.
pub open spec fn qual_text(c: Clang) -> Option<Seq<char>> {
    match c.ty {
        Some(q) => opt_view(q.qualType),
        None => None,
    }
}

impl Clang {
    /// A declaration of that kind and name with nothing else known of it.
    pub fn new(kind: NodeKind, name: String) -> (r: Self)
        ensures
            r.kind == kind,
            r.name@ == name@,
            r.loc is None,
            r.range is None,
            !r.is_invalid,
            r.storage_class is None,
            r.ty is None,
            r.access@.len() == 0,
            r.tag_used@.len() == 0,
            r.value is None,
            r.scoped_enum_tag is None,
            !r.explicitly_deleted,
    {
        Clang {
            kind,
            loc: None,
            range: None,
            name,
            is_invalid: false,
            storage_class: None,
            ty: None,
            access: String::new(),
            tag_used: String::new(),
            value: None,
            scoped_enum_tag: None,
            explicitly_deleted: false,
        }
    }
}

} // verus!
