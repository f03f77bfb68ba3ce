use vstd::prelude::*;

verus! {

/// The closed set of reference categories a collector-managed value can have.
///
/// A handle is fixed to one kind for its whole lifetime, and the tracer has a
/// distinct visit entry point per kind, because its internal representation
/// differs per kind.
#[derive(Clone, Copy, PartialEq, Eq, Structural, Debug)]
pub enum RefKind {
    Object,
    Function,
    Script,
    Str,
    TaggedValue,
    Identifier,
}

impl RefKind {
    /// The diagnostic label a tracer receives for a slot of this kind. It
    /// names the slot's role in graph dumps and carries no semantics.
    pub open spec fn label_spec(self) -> Seq<char> {
        match self {
            RefKind::Object => "object"@,
            RefKind::Function => "function"@,
            RefKind::Script => "script"@,
            RefKind::Str => "string"@,
            RefKind::TaggedValue => "value"@,
            RefKind::Identifier => "id"@,
        }
    }

    /// Produce the diagnostic label for this kind.
    pub fn label(&self) -> (r: String)
        ensures
            r@ == self.label_spec(),
    {
        match self {
            RefKind::Object => "object".to_string(),
            RefKind::Function => "function".to_string(),
            RefKind::Script => "script".to_string(),
            RefKind::Str => "string".to_string(),
            RefKind::TaggedValue => "value".to_string(),
            RefKind::Identifier => "id".to_string(),
        }
    }
}

/// The distinguished "no object" value of the given kind.
pub open spec fn sentinel_of(kind: RefKind) -> GcRef {
    GcRef { kind, addr: 0 }
}

/// A handle-sized value identifying a collector-managed object of one kind.
///
/// `addr` is the collector-assigned address of the object; `addr == 0` is the
/// sentinel ("no object") of every kind. Equality is value equality on the
/// kind and the address, which is identity equality for such references.
#[derive(Clone, Copy, PartialEq, Eq, Structural, Debug)]
pub struct GcRef {
    pub kind: RefKind,
    pub addr: u64,
}

impl GcRef {
    /// True exactly of the sentinel of each kind.
    pub open spec fn is_sentinel_spec(self) -> bool {
        self.addr == 0
    }

    /// Build the sentinel reference of `kind`.
    pub fn sentinel(kind: RefKind) -> (r: GcRef)
        ensures
            r == sentinel_of(kind),
    {
        GcRef { kind, addr: 0 }
    }

    /// True iff this reference is the "no object" sentinel of its kind.
    pub fn is_sentinel(&self) -> (r: bool)
        ensures
            r == self.is_sentinel_spec(),
    {
        self.addr == 0
    }
}

} // verus!
