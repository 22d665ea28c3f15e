//! The profile: the raw buffer read from the device and its decoding.

use vstd::prelude::*;

use crate::attribute::{ProfileAttribute, ProfileAttributeHandler};
use crate::fields::{MouseProfile, ProfileFieldName};

verus! {

/// The length of the profile buffer.
pub const PROFILE_SIZE: usize = 1041;

/// The byte that a profile buffer holds before anything was read into it.
pub const EMPTY_FILL: u8 = 20;

/// The bytes of `buf` at `addresses`, in order.
pub open spec fn gather(buf: Seq<u8>, addresses: Seq<u8>) -> Seq<u8> {
    addresses.map_values(|a: u8| buf[a as int])
}

/// A buffer as it stands before a read: every byte is `EMPTY_FILL`.
pub open spec fn empty_buffer() -> Seq<u8> {
    Seq::new(PROFILE_SIZE as nat, |i: int| EMPTY_FILL)
}

/// The raw profile buffer with the registry that decodes it.
pub struct Profile {
    pub profile_buf: Vec<u8>,
    pub profile_fields: MouseProfile,
}

impl Profile {
    /// The buffer has the profile's length and every attribute can be decoded.
    pub open spec fn well_formed(&self) -> bool {
        &&& self.profile_buf.len() == PROFILE_SIZE
        &&& self.profile_fields.well_formed()
    }

    /// The bytes that the attribute `a` reads.
    pub open spec fn bytes_of(&self, a: ProfileAttribute) -> Seq<u8> {
        gather(self.profile_buf@, a.addresses@)
    }

    /// The display text of the setting `f`.
    pub open spec fn rendered(&self, f: ProfileFieldName) -> Seq<char> {
        let a = self.profile_fields.field(f);
        a.attribute_handler.text(self.bytes_of(a))
    }

    /// The setting `f` holds bytes in its handler's domain.
    pub open spec fn accepted(&self, f: ProfileFieldName) -> bool {
        let a = self.profile_fields.field(f);
        a.attribute_handler.accepts(self.bytes_of(a))
    }

    /// The name and display text of each setting of `order`, in that order.
    pub open spec fn decoded(&self, order: Seq<ProfileFieldName>) -> Seq<(Seq<char>, Seq<char>)> {
        order.map_values(|f: ProfileFieldName| (self.profile_fields.field(f).name@, self.rendered(f)))
    }

    /// An empty profile: every byte is `EMPTY_FILL`, with the registry of the
    /// device's layout.
    pub fn init() -> (r: Self)
        ensures
            r.well_formed(),
            r.profile_buf@ == empty_buffer(),
            r.profile_fields.is_device_layout(),
    {
        let r = Self { profile_buf: vec![EMPTY_FILL; PROFILE_SIZE], profile_fields: MouseProfile::new() };
        assert(r.profile_buf@ =~= empty_buffer());
        r
    }

    /// Replaces the whole buffer with `buf`.
    pub fn update(&mut self, buf: &[u8])
        requires
            old(self).well_formed(),
            buf@.len() == PROFILE_SIZE,
        ensures
            final(self).well_formed(),
            final(self).profile_buf@ == buf@,
            final(self).profile_fields == old(self).profile_fields,
    {
        let mut i: usize = 0;
        while i < PROFILE_SIZE
            invariant
                self.profile_buf.len() == PROFILE_SIZE,
                buf@.len() == PROFILE_SIZE,
                self.profile_fields == old(self).profile_fields,
                i <= PROFILE_SIZE,
                forall|j: int| 0 <= j < i ==> self.profile_buf@[j] == buf@[j],
            decreases PROFILE_SIZE - i,
        {
            self.profile_buf.set(i, buf[i]);
            i = i + 1;
        }
        assert(self.profile_buf@ =~= buf@);
    }

    /// The bytes that the attribute `a` reads, in the order of its addresses.
    pub fn field_bytes(&self, a: &ProfileAttribute) -> (r: Vec<u8>)
        requires
            self.well_formed(),
        ensures
            r@ == self.bytes_of(*a),
    {
        let mut r: Vec<u8> = Vec::new();
        let mut i: usize = 0;
        while i < a.addresses.len()
            invariant
                self.profile_buf.len() == PROFILE_SIZE,
                i <= a.addresses.len(),
                r@ == gather(self.profile_buf@, a.addresses@.take(i as int)),
            decreases a.addresses.len() - i,
        {
            r.push(self.profile_buf[a.addresses[i] as usize]);
            assert(a.addresses@.take(i + 1) =~= a.addresses@.take(i as int).push(a.addresses@[i as int]));
            i = i + 1;
            assert(r@ =~= gather(self.profile_buf@, a.addresses@.take(i as int)));
        }
        assert(a.addresses@.take(i as int) =~= a.addresses@);
        r
    }

    /// The display text of the setting `f`.
    pub fn render_field(&self, f: ProfileFieldName) -> (r: String)
        requires
            self.well_formed(),
        ensures
            r@ == self.rendered(f),
    {
        let a = self.profile_fields.get(f);
        let data = self.field_bytes(a);
        assert(a.well_formed());
        a.attribute_handler.tostring(&data)
    }

    /// Checks the setting `f` against its handler's domain.
    pub fn validate_field(&self, f: ProfileFieldName) -> (r: bool)
        requires
            self.well_formed(),
        ensures
            r == self.accepted(f),
    {
        let a = self.profile_fields.get(f);
        let data = self.field_bytes(a);
        assert(a.well_formed());
        a.attribute_handler.validate(&data)
    }

    /// The name and display text of each setting of `order`, in that order.
    /// Nothing is validated and the buffer is left as it is.
    pub fn decode_all(&self, order: &Vec<ProfileFieldName>) -> (r: Vec<(String, String)>)
        requires
            self.well_formed(),
        ensures
            r@.len() == order@.len(),
            forall|i: int|
                0 <= i < r@.len() ==> ((#[trigger] r@[i]).0@, r@[i].1@) == self.decoded(order@)[i],
    {
        let mut r: Vec<(String, String)> = Vec::new();
        let mut i: usize = 0;
        while i < order.len()
            invariant
                self.well_formed(),
                i <= order.len(),
                r@.len() == i,
                forall|j: int|
                    0 <= j < i ==> ((#[trigger] r@[j]).0@, r@[j].1@) == self.decoded(order@)[j],
            decreases order.len() - i,
        {
            let f = order[i];
            let name = self.profile_fields.get(f).name.clone();
            let text = self.render_field(f);
            r.push((name, text));
            i = i + 1;
        }
        r
    }
}

/// Decoding reads nothing but the buffer and the registry: two profiles with
/// the same bytes and the same registry decode to the same text, field by
/// field.
pub proof fn lemma_decode_repeatable(a: Profile, b: Profile, order: Seq<ProfileFieldName>)
    requires
        a.profile_buf@ == b.profile_buf@,
        a.profile_fields == b.profile_fields,
    ensures
        a.decoded(order) == b.decoded(order),
{
    assert(a.decoded(order) =~= b.decoded(order));
}

} // verus!
