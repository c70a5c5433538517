//! What is kept about an image.

use crate::clock::{current_time, is_reading_text};
use crate::error::RuntimeError;
use crate::text::{
    all_hex_digits, chars_of, fixed_width, first_index, lemma_first_index, lemma_fixed_width_hex,
    lemma_fixed_width_len, push_fixed_width,
};
use crate::wire::{
    bad_record, fields_view, find, lemma_lookup_finds, lookup, number_field, number_in,
    record_error, text_field, text_in, text_member, Members, WireField, WireValue, WireValueView,
};
use std::collections::hash_map::DefaultHasher;
use std::hash::Hasher;
use vstd::prelude::*;
use vstd::std_specs::hash::DefaultHasherAdditionalSpecFns;
use vstd::utf8::encode_utf8;

verus! {

/// The record of one image.
#[derive(Debug)]
pub struct ImageInfo {
    /// The image's name, such as `busybox`.
    pub name: String,
    /// The image's tag, such as `latest`.
    pub tag: String,
    /// The size in bytes of the image's file tree.
    pub size: u64,
    /// When the image was made, as `YYYY-MM-DD HH:MM:SS`.
    pub created_time: String,
    /// Twelve digits of base sixteen, made from the name and the tag.
    pub id: String,
}

/// An `ImageInfo` with its texts as sequences of characters.
pub struct ImageInfoView {
    pub name: Seq<char>,
    pub tag: Seq<char>,
    pub size: u64,
    pub created_time: Seq<char>,
    pub id: Seq<char>,
}

impl View for ImageInfo {
    type V = ImageInfoView;

    open spec fn view(&self) -> ImageInfoView {
        ImageInfoView {
            name: self.name@,
            tag: self.tag@,
            size: self.size,
            created_time: self.created_time@,
            id: self.id@,
        }
    }
}

/// The tag of an image for which none is given.
pub fn default_tag() -> (tag: String)
    ensures
        tag@ == "latest"@,
{
    String::from_str("latest")
}

/// The full name of an image: its name, a colon, its tag.
pub open spec fn full_name_of(name: Seq<char>, tag: Seq<char>) -> Seq<char> {
    name + ":"@ + tag
}

/// The hash of a text: what the standard hasher, freshly made, gives for
/// the bytes of the text followed by one byte `0xff`.
pub open spec fn text_hash(text: Seq<char>) -> u64 {
    DefaultHasher::spec_finish(seq![encode_utf8(text), seq![0xffu8]])
}

/// The id of the image `name:tag`: the last twelve digits, in base sixteen,
/// of the hash of its full name.
pub open spec fn image_id_of(name: Seq<char>, tag: Seq<char>) -> Seq<char> {
    fixed_width(text_hash(full_name_of(name, tag)) as nat, 16, 12)
}

/// A record as it is written: its members, in the order in which they are
/// written.
pub open spec fn image_members(info: ImageInfoView) -> Members {
    seq![
        ("name"@, WireValueView::Text(info.name)),
        ("tag"@, WireValueView::Text(info.tag)),
        ("size"@, WireValueView::Number(info.size)),
        ("created_time"@, WireValueView::Text(info.created_time)),
        ("id"@, WireValueView::Text(info.id)),
    ]
}

/// The tag that written members hold: that of the member `tag`, or
/// `latest` if there is no such member.
pub open spec fn tag_in(found: Option<WireValueView>) -> Option<Seq<char>> {
    match found {
        None => Some("latest"@),
        Some(WireValueView::Text(tag)) => Some(tag),
        _ => None,
    }
}

/// The record that written members hold: each member is looked up by its
/// name, wherever it stands, and other members are passed over. The tag may
/// be missing; every other member must be there and hold a value of its
/// kind.
pub open spec fn image_of_members(members: Members) -> Option<ImageInfoView> {
    let name = text_in(lookup(members, "name"@));
    let tag = tag_in(lookup(members, "tag"@));
    let size = number_in(lookup(members, "size"@));
    let created_time = text_in(lookup(members, "created_time"@));
    let id = text_in(lookup(members, "id"@));
    if name is Some && tag is Some && size is Some && created_time is Some && id is Some {
        Some(
            ImageInfoView {
                name: name->Some_0,
                tag: tag->Some_0,
                size: size->Some_0,
                created_time: created_time->Some_0,
                id: id->Some_0,
            },
        )
    } else {
        None
    }
}

/// What is written of an image's record is read back as that record,
/// member by member.
pub proof fn lemma_image_round_trip(info: ImageInfoView)
    ensures
        image_of_members(image_members(info)) == Some(info),
{
    reveal_strlit("name");
    reveal_strlit("tag");
    reveal_strlit("size");
    reveal_strlit("created_time");
    reveal_strlit("id");
    let members = image_members(info);
    assert("name"@[0] == 'n' && "size"@[0] == 's');
    assert forall|k: int| 0 <= k < 5 implies lookup(members, (#[trigger] members[k]).0) == Some(
        members[k].1,
    ) by {
        assert forall|j: int| 0 <= j < k implies (#[trigger] members[j]).0 != members[k].0 by {
            assert(members[j].0.len() != members[k].0.len() || members[j].0[0] != members[k].0[0]);
        }
        lemma_lookup_finds(members, k);
    }
    assert(lookup(members, "name"@) == Some(members[0].1));
    assert(lookup(members, "tag"@) == Some(members[1].1));
    assert(lookup(members, "size"@) == Some(members[2].1));
    assert(lookup(members, "created_time"@) == Some(members[3].1));
    assert(lookup(members, "id"@) == Some(members[4].1));
}

/// A written record that gives no tag is read as a record with the tag
/// `latest`.
pub proof fn lemma_stored_tag_defaults_to_latest(members: Members)
    requires
        lookup(members, "tag"@) is None,
        image_of_members(members) is Some,
    ensures
        image_of_members(members)->Some_0.tag == "latest"@,
{
}

/// The name and the tag that a reference `NAME[:TAG]` names: what stands
/// before its first colon and what stands after it; with no colon, the
/// whole reference and the tag `latest`.
pub open spec fn reference_of(reference: Seq<char>) -> (Seq<char>, Seq<char>) {
    let k = first_index(reference, ':');
    if k < reference.len() {
        (reference.take(k), reference.skip(k + 1))
    } else {
        (reference, "latest"@)
    }
}

/// A reference that gives no tag names the tag `latest`.
pub proof fn lemma_tag_defaults_to_latest(reference: Seq<char>)
    requires
        !reference.contains(':'),
    ensures
        reference_of(reference) == (reference, "latest"@),
{
    lemma_first_index(reference, ':', reference.len() as int);
}

impl ImageInfo {
    /// The id of the image `name:tag`. The same name and tag give the same
    /// id.
    pub fn generate_id(name: &str, tag: &str) -> (id: String)
        ensures
            id@ == image_id_of(name@, tag@),
            id@.len() == 12,
            all_hex_digits(id@),
    {
        let full = String::from_str(name).concat(":").concat(tag);
        let mut hasher = DefaultHasher::new();
        hasher.write(full.as_str().as_bytes());
        let mut end: Vec<u8> = Vec::new();
        end.push(0xff);
        hasher.write(end.as_slice());
        let hash: u64 = hasher.finish();
        proof {
            assert(hasher@ =~= seq![encode_utf8(full@), seq![0xffu8]]);
            assert(hash == text_hash(full_name_of(name@, tag@)));
            lemma_fixed_width_len(hash as nat, 16, 12);
            lemma_fixed_width_hex(hash as nat, 12);
        }
        let mut id = String::new();
        push_fixed_width(&mut id, hash, 16, 12);
        assert(id@ =~= image_id_of(name@, tag@));
        id
    }

    /// The time now in UTC by the system's clock, as `YYYY-MM-DD HH:MM:SS`.
    pub fn current_time() -> (text: String)
        ensures
            is_reading_text(text@),
    {
        current_time()
    }

    /// The full name of the image: its name, a colon, its tag.
    pub fn full_name(&self) -> (full: String)
        ensures
            full@ == full_name_of(self.name@, self.tag@),
    {
        String::from_str(self.name.as_str()).concat(":").concat(self.tag.as_str())
    }

    /// The full name of the image, as it is shown.
    pub fn to_string(&self) -> (full: String)
        ensures
            full@ == full_name_of(self.name@, self.tag@),
    {
        self.full_name()
    }

    /// The record of the image `name:tag` of `size` bytes, made at
    /// `created_time`.
    pub fn with_time(name: String, tag: String, size: u64, created_time: String) -> (info:
        ImageInfo)
        ensures
            info@ == (ImageInfoView {
                name: name@,
                tag: tag@,
                size,
                created_time: created_time@,
                id: image_id_of(name@, tag@),
            }),
    {
        let id = ImageInfo::generate_id(name.as_str(), tag.as_str());
        ImageInfo { name, tag, size, created_time, id }
    }

    /// The record of the image `name:tag` of `size` bytes, made now.
    pub fn new(name: String, tag: String, size: u64) -> (info: ImageInfo)
        ensures
            info.name@ == name@,
            info.tag@ == tag@,
            info.size == size,
            info.id@ == image_id_of(name@, tag@),
            is_reading_text(info.created_time@),
    {
        ImageInfo::with_time(name, tag, size, ImageInfo::current_time())
    }

    /// The record as it is written: its members by their names.
    pub fn to_fields(&self) -> (fields: Vec<WireField>)
        ensures
            fields_view(fields@) == image_members(self@),
    {
        let mut fields: Vec<WireField> = Vec::new();
        fields.push(text_member("name", &self.name));
        fields.push(text_member("tag", &self.tag));
        fields.push(
            WireField { name: String::from_str("size"), value: WireValue::Number(self.size) },
        );
        fields.push(text_member("created_time", &self.created_time));
        fields.push(text_member("id", &self.id));
        assert(fields_view(fields@) =~= image_members(self@));
        fields
    }

    /// The record that written members hold, if they hold one. Members
    /// that give no tag hold the tag `latest`.
    pub fn from_fields(fields: &Vec<WireField>) -> (info: Result<ImageInfo, RuntimeError>)
        ensures
            match image_of_members(fields_view(fields@)) {
                Some(record) => info is Ok && info->Ok_0@ == record,
                None => info is Err && info->Err_0@ == bad_record("image record"@),
            },
    {
        let name = text_field(fields, "name");
        let tag = match find(fields, "tag") {
            None => Some(default_tag()),
            Some(WireValue::Text(tag)) => Some(tag.clone()),
            _ => None,
        };
        let size = number_field(fields, "size");
        let created_time = text_field(fields, "created_time");
        let id = text_field(fields, "id");
        match (name, tag, size, created_time, id) {
            (Some(name), Some(tag), Some(size), Some(created_time), Some(id)) => Ok(
                ImageInfo { name, tag, size, created_time, id },
            ),
            _ => Err(record_error("image record")),
        }
    }

    /// A second record with the same contents.
    pub fn duplicate(&self) -> (copy: ImageInfo)
        ensures
            copy@ == self@,
    {
        ImageInfo {
            name: self.name.clone(),
            tag: self.tag.clone(),
            size: self.size,
            created_time: self.created_time.clone(),
            id: self.id.clone(),
        }
    }

    /// The name and the tag that the reference `NAME[:TAG]` names. A
    /// reference without a colon names the tag `latest`.
    pub fn parse_reference(reference: &str) -> (named: (String, String))
        ensures
            (named.0@, named.1@) == reference_of(reference@),
    {
        let chars = chars_of(reference);
        let mut k: usize = 0;
        while k < chars.len() && chars[k] != ':'
            invariant
                k <= chars.len(),
                forall|j: int| 0 <= j < k ==> chars@[j] != ':',
            decreases chars.len() - k,
        {
            k = k + 1;
        }
        proof {
            lemma_first_index(reference@, ':', k as int);
        }
        if k < chars.len() {
            let name = String::from_str(reference.substring_char(0, k));
            let tag = String::from_str(reference.substring_char(k + 1, chars.len()));
            assert(reference@.take(k as int) =~= reference@.subrange(0, k as int));
            assert(reference@.skip(k + 1) =~= reference@.subrange(k + 1, chars.len() as int));
            (name, tag)
        } else {
            (String::from_str(reference), default_tag())
        }
    }
}

} // verus!
