//! Unlock conditions and features of an alias output. A set of features holds
//! at most one feature of each kind, kept in one slot per kind.
use crate::alias_id::{bytes_equal, Address};
use crate::encoding::{address_bytes, le_bytes, lemma_le_bytes_len, push_address, push_all, push_le};
use vstd::prelude::*;

verus! {

/// Longest data of a metadata feature.
pub const MAX_METADATA_LENGTH: usize = 8192;

/// Longest data of a tag feature.
pub const MAX_TAG_LENGTH: usize = 64;

/// Bytes of an address: a kind tag and 32 bytes.
pub const ADDRESS_LENGTH: u64 = 33;

/// A capability that whoever consumes an output must hold.
#[derive(Clone, Copy, Debug, PartialEq, Eq, Hash)]
pub enum UnlockCondition {
    /// May make state transitions.
    StateControllerAddress(Address),
    /// May make governance transitions.
    GovernorAddress(Address),
}

/// Optional data attached to an output.
#[derive(Clone, Debug, PartialEq, Eq, Hash)]
pub enum Feature {
    Sender(Address),
    Issuer(Address),
    Metadata(Vec<u8>),
    Tag(Vec<u8>),
}

/// A feature with its data as a sequence.
pub ghost enum FeatureModel {
    Sender(Address),
    Issuer(Address),
    Metadata(Seq<u8>),
    Tag(Seq<u8>),
}

impl View for Feature {
    type V = FeatureModel;

    open spec fn view(&self) -> FeatureModel {
        match self {
            Feature::Sender(a) => FeatureModel::Sender(*a),
            Feature::Issuer(a) => FeatureModel::Issuer(*a),
            Feature::Metadata(d) => FeatureModel::Metadata(d@),
            Feature::Tag(d) => FeatureModel::Tag(d@),
        }
    }
}

/// The data of an optional byte vector.
pub open spec fn opt_bytes(o: Option<Vec<u8>>) -> Option<Seq<u8>> {
    match o {
        Some(v) => Some(v@),
        None => None,
    }
}

/// A copy of bytes.
pub fn copy_bytes(v: &Vec<u8>) -> (r: Vec<u8>)
    ensures
        r@ == v@,
{
    let r = v.clone();
    assert(r@ =~= v@);
    r
}

fn copy_opt_bytes(o: &Option<Vec<u8>>) -> (r: Option<Vec<u8>>)
    ensures
        opt_bytes(r) == opt_bytes(*o),
{
    match o {
        Some(v) => Some(copy_bytes(v)),
        None => None,
    }
}

/// At most one feature of each kind.
#[derive(Debug, PartialEq, Eq, Hash)]
pub struct FeatureSet {
    sender: Option<Address>,
    issuer: Option<Address>,
    metadata: Option<Vec<u8>>,
    tag: Option<Vec<u8>>,
}

/// What a feature set holds, by kind.
pub ghost struct FeatureSetModel {
    pub sender: Option<Address>,
    pub issuer: Option<Address>,
    pub metadata: Option<Seq<u8>>,
    pub tag: Option<Seq<u8>>,
}

impl View for FeatureSet {
    type V = FeatureSetModel;

    closed spec fn view(&self) -> FeatureSetModel {
        FeatureSetModel {
            sender: self.sender,
            issuer: self.issuer,
            metadata: opt_bytes(self.metadata),
            tag: opt_bytes(self.tag),
        }
    }
}

/// The set that holds nothing.
pub open spec fn empty_features() -> FeatureSetModel {
    FeatureSetModel { sender: None, issuer: None, metadata: None, tag: None }
}

/// Whether the set holds a feature of the kind of `f`.
pub open spec fn has_kind(s: FeatureSetModel, f: FeatureModel) -> bool {
    match f {
        FeatureModel::Sender(_) => s.sender is Some,
        FeatureModel::Issuer(_) => s.issuer is Some,
        FeatureModel::Metadata(_) => s.metadata is Some,
        FeatureModel::Tag(_) => s.tag is Some,
    }
}

/// The set with `f` in place of any feature of its kind.
pub open spec fn with_feature(s: FeatureSetModel, f: FeatureModel) -> FeatureSetModel {
    match f {
        FeatureModel::Sender(a) => FeatureSetModel { sender: Some(a), ..s },
        FeatureModel::Issuer(a) => FeatureSetModel { issuer: Some(a), ..s },
        FeatureModel::Metadata(d) => FeatureSetModel { metadata: Some(d), ..s },
        FeatureModel::Tag(d) => FeatureSetModel { tag: Some(d), ..s },
    }
}

/// Whether the data of each feature is within its bound.
pub open spec fn features_bounded(s: FeatureSetModel) -> bool {
    &&& (s.metadata matches Some(d) ==> d.len() <= MAX_METADATA_LENGTH)
    &&& (s.tag matches Some(d) ==> d.len() <= MAX_TAG_LENGTH)
}

/// Encoded length of a feature list: a count byte, then each feature in the
/// order of its kind with a kind byte; an address whole, metadata behind a
/// 2-byte length, a tag behind a 1-byte length.
pub open spec fn features_len(s: FeatureSetModel) -> nat {
    let sender: nat = if s.sender is Some { (1 + ADDRESS_LENGTH) as nat } else { 0 };
    let issuer: nat = if s.issuer is Some { (1 + ADDRESS_LENGTH) as nat } else { 0 };
    let metadata: nat = match s.metadata {
        Some(d) => 3 + d.len(),
        None => 0,
    };
    let tag: nat = match s.tag {
        Some(d) => 2 + d.len(),
        None => 0,
    };
    1 + sender + issuer + metadata + tag
}

/// Kind bytes of the features.
pub const SENDER_KIND: u8 = 0;
pub const ISSUER_KIND: u8 = 1;
pub const METADATA_KIND: u8 = 2;
pub const TAG_KIND: u8 = 3;

/// How many features a set holds.
pub open spec fn feature_count(s: FeatureSetModel) -> nat {
    (if s.sender is Some { 1nat } else { 0nat }) + (if s.issuer is Some { 1nat } else { 0nat }) + (
    if s.metadata is Some { 1nat } else { 0nat }) + (if s.tag is Some { 1nat } else { 0nat })
}

/// The bytes of an optional address feature of kind `kind`.
pub open spec fn address_part(kind: u8, o: Option<Address>) -> Seq<u8> {
    match o {
        Some(a) => seq![kind] + address_bytes(a),
        None => Seq::empty(),
    }
}

/// The bytes of an optional data feature of kind `kind`, its length in `width` bytes.
pub open spec fn data_part(kind: u8, o: Option<Seq<u8>>, width: nat) -> Seq<u8> {
    match o {
        Some(d) => seq![kind] + le_bytes(d.len(), width) + d,
        None => Seq::empty(),
    }
}

/// The bytes of a feature list: the count, then each feature in the order of
/// its kind, with its kind byte first.
pub open spec fn features_bytes(s: FeatureSetModel) -> Seq<u8> {
    seq![feature_count(s) as u8] + address_part(SENDER_KIND, s.sender) + address_part(ISSUER_KIND, s.issuer)
        + data_part(METADATA_KIND, s.metadata, 2) + data_part(TAG_KIND, s.tag, 1)
}

/// A feature list's bytes are as many as `features_len` counts.
pub proof fn lemma_features_bytes_len(s: FeatureSetModel)
    ensures
        features_bytes(s).len() == features_len(s),
{
    if let Some(d) = s.metadata {
        lemma_le_bytes_len(d.len(), 2);
    }
    if let Some(d) = s.tag {
        lemma_le_bytes_len(d.len(), 1);
    }
    if let Some(a) = s.sender {
        assert(address_bytes(a).len() == 33);
    }
    if let Some(a) = s.issuer {
        assert(address_bytes(a).len() == 33);
    }
}

fn push_address_part(out: &mut Vec<u8>, kind: u8, o: &Option<Address>)
    ensures
        final(out)@ == old(out)@ + address_part(kind, *o),
        address_part(kind, *o).len() == if o is Some { 34nat } else { 0nat },
{
    let ghost before = out@;
    if let Some(a) = o {
        out.push(kind);
        push_address(out, a);
    }
    assert(out@ =~= before + address_part(kind, *o));
}

fn push_data_part(out: &mut Vec<u8>, kind: u8, o: &Option<Vec<u8>>, width: usize)
    requires
        o matches Some(d) ==> d@.len() <= u64::MAX,
    ensures
        final(out)@ == old(out)@ + data_part(kind, opt_bytes(*o), width as nat),
        data_part(kind, opt_bytes(*o), width as nat).len() == match o {
            Some(d) => 1 + width + d@.len(),
            None => 0,
        },
{
    let ghost before = out@;
    if let Some(d) = o {
        out.push(kind);
        push_le(out, d.len() as u64, width);
        push_all(out, d.as_slice());
        proof {
            lemma_le_bytes_len(d@.len(), width as nat);
        }
    }
    assert(out@ =~= before + data_part(kind, opt_bytes(*o), width as nat));
}

fn opt_bytes_equal(a: &Option<Vec<u8>>, b: &Option<Vec<u8>>) -> (r: bool)
    ensures
        r == (opt_bytes(*a) == opt_bytes(*b)),
{
    match (a, b) {
        (Some(x), Some(y)) => bytes_equal(x.as_slice(), y.as_slice()),
        (None, None) => true,
        _ => false,
    }
}

fn opt_address_equal(a: &Option<Address>, b: &Option<Address>) -> (r: bool)
    ensures
        r == (*a == *b),
{
    match (a, b) {
        (Some(x), Some(y)) => x.same_as(y),
        (None, None) => true,
        _ => false,
    }
}

impl Clone for FeatureSet {
    fn clone(&self) -> (r: FeatureSet)
        ensures
            r@ == self@,
    {
        FeatureSet {
            sender: self.sender,
            issuer: self.issuer,
            metadata: copy_opt_bytes(&self.metadata),
            tag: copy_opt_bytes(&self.tag),
        }
    }
}

impl FeatureSet {
    /// The set that holds nothing.
    pub fn new() -> (r: FeatureSet)
        ensures
            r@ == empty_features(),
    {
        FeatureSet { sender: None, issuer: None, metadata: None, tag: None }
    }

    /// Whether the set holds a feature of the kind of `f`.
    pub fn has_kind_of(&self, f: &Feature) -> (r: bool)
        ensures
            r == has_kind(self@, f@),
    {
        match f {
            Feature::Sender(_) => self.sender.is_some(),
            Feature::Issuer(_) => self.issuer.is_some(),
            Feature::Metadata(_) => self.metadata.is_some(),
            Feature::Tag(_) => self.tag.is_some(),
        }
    }

    /// Puts `f` in place of any feature of its kind.
    pub fn put(&mut self, f: Feature)
        ensures
            final(self)@ == with_feature(old(self)@, f@),
    {
        match f {
            Feature::Sender(a) => self.sender = Some(a),
            Feature::Issuer(a) => self.issuer = Some(a),
            Feature::Metadata(d) => self.metadata = Some(d),
            Feature::Tag(d) => self.tag = Some(d),
        }
    }

    /// Whether two sets hold the same features.
    pub fn same_as(&self, other: &FeatureSet) -> (r: bool)
        ensures
            r == (self@ == other@),
    {
        opt_address_equal(&self.sender, &other.sender) && opt_address_equal(&self.issuer, &other.issuer)
            && opt_bytes_equal(&self.metadata, &other.metadata) && opt_bytes_equal(&self.tag, &other.tag)
    }

    /// Whether the data of each feature is within its bound.
    pub fn is_bounded(&self) -> (r: bool)
        ensures
            r == features_bounded(self@),
    {
        let m = match &self.metadata {
            Some(d) => d.len() <= MAX_METADATA_LENGTH,
            None => true,
        };
        let t = match &self.tag {
            Some(d) => d.len() <= MAX_TAG_LENGTH,
            None => true,
        };
        m && t
    }

    /// Encoded length of the set as a feature list.
    pub fn packed_len(&self) -> (r: u64)
        requires
            features_bounded(self@),
        ensures
            r == features_len(self@),
    {
        let mut n: u64 = 1;
        if self.sender.is_some() {
            n = n + 1 + ADDRESS_LENGTH;
        }
        if self.issuer.is_some() {
            n = n + 1 + ADDRESS_LENGTH;
        }
        if let Some(d) = &self.metadata {
            n = n + 3 + d.len() as u64;
        }
        if let Some(d) = &self.tag {
            n = n + 2 + d.len() as u64;
        }
        n
    }

    /// Appends the bytes of the set as a feature list.
    pub fn pack_into(&self, out: &mut Vec<u8>)
        requires
            features_bounded(self@),
        ensures
            final(out)@ == old(out)@ + features_bytes(self@),
            features_bytes(self@).len() == features_len(self@),
    {
        let ghost start = out@;
        let count: u8 = (if self.sender.is_some() { 1u8 } else { 0u8 }) + (if self.issuer.is_some() {
            1u8
        } else {
            0u8
        }) + (if self.metadata.is_some() { 1u8 } else { 0u8 }) + (if self.tag.is_some() {
            1u8
        } else {
            0u8
        });
        out.push(count);
        push_address_part(out, SENDER_KIND, &self.sender);
        push_address_part(out, ISSUER_KIND, &self.issuer);
        push_data_part(out, METADATA_KIND, &self.metadata, 2);
        push_data_part(out, TAG_KIND, &self.tag, 1);
        assert(out@ =~= start + features_bytes(self@));
    }

    /// The sender feature, if any.
    pub fn sender(&self) -> (r: Option<Address>)
        ensures
            r == self@.sender,
    {
        self.sender
    }

    /// The issuer feature, if any.
    pub fn issuer(&self) -> (r: Option<Address>)
        ensures
            r == self@.issuer,
    {
        self.issuer
    }

    /// The data of the metadata feature, if any.
    pub fn metadata(&self) -> (r: Option<&Vec<u8>>)
        ensures
            match r {
                Some(d) => self@.metadata == Some(d@),
                None => self@.metadata is None,
            },
    {
        self.metadata.as_ref()
    }

    /// The data of the tag feature, if any.
    pub fn tag(&self) -> (r: Option<&Vec<u8>>)
        ensures
            match r {
                Some(d) => self@.tag == Some(d@),
                None => self@.tag is None,
            },
    {
        self.tag.as_ref()
    }
}

} // verus!
