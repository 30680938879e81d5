use vstd::prelude::*;

verus! {

/// Tag of the frame that opens an authenticated stream and carries the secret.
pub const HANDSHAKE_TAG: u8 = 0;

/// Tag of a frame that carries UTF-8 text.
pub const TEXT_TAG: u8 = 1;

/// What a clipboard object means: its variant and its payload bytes.
pub ghost enum ObjectView {
    Text(Seq<u8>),
}

impl ObjectView {
    /// The tag that identifies this variant on the wire.
    pub open spec fn tag(self) -> u8 {
        match self {
            ObjectView::Text(_) => TEXT_TAG,
        }
    }

    /// The bytes carried after the length field.
    pub open spec fn payload(self) -> Seq<u8> {
        match self {
            ObjectView::Text(b) => b,
        }
    }
}

/// Whether `tag` names a variant of `ClipboardObject`.
pub open spec fn is_object_tag(tag: u8) -> bool {
    tag == TEXT_TAG
}

/// The object that a known tag and its payload stand for.
pub open spec fn object_of(tag: u8, payload: Seq<u8>) -> ObjectView
    recommends
        is_object_tag(tag),
{
    ObjectView::Text(payload)
}

/// The unit of replication between two clipboards.
#[derive(Clone, Debug)]
pub enum ClipboardObject {
    /// UTF-8 text, held as its bytes.
    Text(Vec<u8>),
}

impl View for ClipboardObject {
    type V = ObjectView;

    open spec fn view(&self) -> ObjectView {
        match self {
            ClipboardObject::Text(b) => ObjectView::Text(b@),
        }
    }
}

/// Compares two byte strings exactly.
pub fn bytes_equal(a: &[u8], b: &[u8]) -> (r: bool)
    ensures
        r == (a@ == b@),
{
    if a.len() != b.len() {
        return false;
    }
    let mut i: usize = 0;
    while i < a.len()
        invariant
            a@.len() == b@.len(),
            i <= a@.len(),
            a@.subrange(0, i as int) == b@.subrange(0, i as int),
        decreases a@.len() - i,
    {
        if a[i] != b[i] {
            assert(a@[i as int] != b@[i as int]);
            return false;
        }
        assert(a@.subrange(0, i + 1) == a@.subrange(0, i as int).push(a@[i as int]));
        assert(b@.subrange(0, i + 1) == b@.subrange(0, i as int).push(b@[i as int]));
        i = i + 1;
    }
    assert(a@ == a@.subrange(0, a@.len() as int));
    assert(b@ == b@.subrange(0, b@.len() as int));
    true
}

impl ClipboardObject {
    /// The tag written in front of this object on the wire.
    pub fn tag(&self) -> (r: u8)
        ensures
            r == self@.tag(),
    {
        match self {
            ClipboardObject::Text(_) => TEXT_TAG,
        }
    }

    /// The payload bytes of this object.
    pub fn payload(&self) -> (r: &[u8])
        ensures
            r@ == self@.payload(),
    {
        match self {
            ClipboardObject::Text(b) => b.as_slice(),
        }
    }
}

impl ClipboardObject {
    /// Empty text, what a cleared clipboard holds.
    pub fn empty_text() -> (r: ClipboardObject)
        ensures
            r@ == ObjectView::Text(Seq::empty()),
    {
        let b: Vec<u8> = Vec::new();
        assert(b@ =~= Seq::<u8>::empty());
        ClipboardObject::Text(b)
    }

    /// A copy of this object.
    pub fn duplicate(&self) -> (r: ClipboardObject)
        ensures
            r@ == self@,
    {
        match self {
            ClipboardObject::Text(b) => {
                let mut c: Vec<u8> = Vec::new();
                let mut i: usize = 0;
                while i < b.len()
                    invariant
                        i <= b@.len(),
                        c@ == b@.subrange(0, i as int),
                    decreases b@.len() - i,
                {
                    c.push(b[i]);
                    assert(b@.subrange(0, i + 1) == b@.subrange(0, i as int).push(b@[i as int]));
                    i = i + 1;
                }
                assert(c@ =~= b@);
                ClipboardObject::Text(c)
            },
        }
    }
}

/// The meaning of an optional object.
pub open spec fn view_opt(o: Option<ClipboardObject>) -> Option<ObjectView> {
    match o {
        Some(x) => Some(x@),
        None => None,
    }
}

impl PartialEq for ClipboardObject {
    fn eq(&self, other: &ClipboardObject) -> (r: bool) {
        bytes_equal(self.payload(), other.payload())
    }
}

impl vstd::std_specs::cmp::PartialEqSpecImpl for ClipboardObject {
    open spec fn obeys_eq_spec() -> bool {
        true
    }

    open spec fn eq_spec(&self, other: &ClipboardObject) -> bool {
        self@ == other@
    }
}

impl Eq for ClipboardObject {
}

} // verus!
