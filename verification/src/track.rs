//! Track descriptions: what the library knows of a track, and the rules by
//! which that description is read out of the metadata found in an audio file.

use vstd::prelude::*;
use vstd::string::StringExecFns;

verus! {

/// A track identifier: the 128 bits of the track's UUID.
pub type TrackId = u128;

/// A length of time, as `std::time::Duration` holds it.
#[derive(Clone, Copy, Debug, PartialEq, Eq, Structural)]
pub struct TrackDuration {
    pub secs: u64,
    pub subsec_nanos: u32,
}

/// The descriptive information of a track.
#[derive(Clone, Debug)]
pub struct Info {
    pub path: String,
    pub title: String,
    pub album: String,
    pub artist: String,
    pub cover: Option<Vec<u8>>,
}

/// The mathematical model of an [`Info`].
pub struct InfoView {
    pub path: Seq<char>,
    pub title: Seq<char>,
    pub album: Seq<char>,
    pub artist: Seq<char>,
    pub cover: Option<Seq<u8>>,
}

impl View for Info {
    type V = InfoView;

    open spec fn view(&self) -> InfoView {
        InfoView {
            path: self.path@,
            title: self.title@,
            album: self.album@,
            artist: self.artist@,
            cover: match self.cover {
                Some(c) => Some(c@),
                None => None,
            },
        }
    }
}

/// Copies a byte vector element by element.
pub(crate) fn copy_bytes(bytes: &Vec<u8>) -> (r: Vec<u8>)
    ensures
        r@ == bytes@,
{
    let mut r: Vec<u8> = Vec::new();
    let n = bytes.len();
    for i in 0..n
        invariant
            n == bytes@.len(),
            r@ == bytes@.take(i as int),
    {
        r.push(bytes[i]);
        assert(bytes@.take(i + 1) =~= bytes@.take(i as int).push(bytes@[i as int]));
    }
    assert(bytes@.take(n as int) =~= bytes@);
    r
}

impl Info {
    /// A copy of this description, equal to it field by field.
    pub fn duplicate(&self) -> (r: Info)
        ensures
            r@ == self@,
    {
        let cover = match &self.cover {
            Some(c) => Some(copy_bytes(c)),
            None => None,
        };
        Info {
            path: self.path.clone(),
            title: self.title.clone(),
            album: self.album.clone(),
            artist: self.artist.clone(),
            cover,
        }
    }
}

/// The technical properties of a decoded track.
#[derive(Clone, Copy, Debug, PartialEq, Eq, Structural)]
pub struct Tech {
    pub channel_count: usize,
    pub sample_rate: u32,
    pub duration: TrackDuration,
}

/// The standard tag keys that a track description is built from.
#[derive(Clone, Copy, Debug, PartialEq, Eq, Structural)]
pub enum TagKey {
    TrackTitle,
    Album,
    Artist,
}

/// One metadata tag: the standard key it was recognised as (`None` when it
/// is none of [`TagKey`]'s) and its value as text.
#[derive(Clone, Debug)]
pub struct Tag {
    pub std_key: Option<TagKey>,
    pub value: String,
}

/// One revision of a file's metadata: its tags and the data of its visuals,
/// both in the order in which the file holds them.
#[derive(Clone, Debug)]
pub struct MetadataRevision {
    pub tags: Vec<Tag>,
    pub visuals: Vec<Vec<u8>>,
}

/// The model of a [`MetadataRevision`].
pub struct RevisionView {
    pub tags: Seq<(Option<TagKey>, Seq<char>)>,
    pub visuals: Seq<Seq<u8>>,
}

impl View for MetadataRevision {
    type V = RevisionView;

    open spec fn view(&self) -> RevisionView {
        RevisionView {
            tags: self.tags@.map_values(|t: Tag| (t.std_key, t.value@)),
            visuals: self.visuals@.map_values(|v: Vec<u8>| v@),
        }
    }
}

/// The model of an optional revision.
pub open spec fn revision_view(r: Option<MetadataRevision>) -> Option<RevisionView> {
    match r {
        Some(r) => Some(r@),
        None => None,
    }
}

/// The value of the first tag of `tags` recognised as `key`.
pub open spec fn first_tag_value(tags: Seq<(Option<TagKey>, Seq<char>)>, key: TagKey) -> Option<
    Seq<char>,
>
    decreases tags.len(),
{
    if tags.len() == 0 {
        None
    } else if tags[0].0 == Some(key) {
        Some(tags[0].1)
    } else {
        first_tag_value(tags.drop_first(), key)
    }
}

/// The value of the first tag recognised as `key` in a revision, if there is one.
pub open spec fn revision_tag(r: Option<RevisionView>, key: TagKey) -> Option<Seq<char>> {
    match r {
        Some(r) => first_tag_value(r.tags, key),
        None => None,
    }
}

/// The tag value for `key`: the container's revision is searched first, the
/// probe's revision only when the container gives none.
pub open spec fn spec_extract_tag(
    container: Option<RevisionView>,
    probe: Option<RevisionView>,
    key: TagKey,
) -> Option<Seq<char>> {
    match revision_tag(container, key) {
        Some(v) => Some(v),
        None => revision_tag(probe, key),
    }
}

/// The first visual of a revision, if there is one.
pub open spec fn revision_cover(r: Option<RevisionView>) -> Option<Seq<u8>> {
    match r {
        Some(r) => if r.visuals.len() > 0 {
            Some(r.visuals[0])
        } else {
            None
        },
        None => None,
    }
}

/// The cover: the first visual of the probe's revision when it has one,
/// else the first visual of the container's revision.
pub open spec fn spec_extract_cover(
    container: Option<RevisionView>,
    probe: Option<RevisionView>,
) -> Option<Seq<u8>> {
    match revision_cover(probe) {
        Some(c) => Some(c),
        None => revision_cover(container),
    }
}

proof fn lemma_first_tag_step(tags: Seq<(Option<TagKey>, Seq<char>)>, key: TagKey, i: int)
    requires
        0 <= i < tags.len(),
        forall|j: int| 0 <= j < i ==> tags[j].0 != Some(key),
    ensures
        first_tag_value(tags, key) == first_tag_value(tags.subrange(i, tags.len() as int), key),
    decreases i,
{
    if i > 0 {
        lemma_first_tag_step(tags.drop_first(), key, i - 1);
        assert(tags.drop_first().subrange(i - 1, tags.len() - 1) =~= tags.subrange(
            i,
            tags.len() as int,
        ));
    } else {
        assert(tags.subrange(0, tags.len() as int) =~= tags);
    }
}

proof fn lemma_first_tag_none(tags: Seq<(Option<TagKey>, Seq<char>)>, key: TagKey)
    requires
        forall|j: int| 0 <= j < tags.len() ==> tags[j].0 != Some(key),
    ensures
        first_tag_value(tags, key) == None::<Seq<char>>,
    decreases tags.len(),
{
    if tags.len() > 0 {
        lemma_first_tag_none(tags.drop_first(), key);
    }
}

/// Searches one revision for the first tag recognised as `key`.
fn find_tag(revision: &MetadataRevision, key: TagKey) -> (r: Option<String>)
    ensures
        match r {
            Some(v) => revision_tag(Some(revision@), key) == Some(v@),
            None => revision_tag(Some(revision@), key) is None,
        },
{
    let ghost tags = revision@.tags;
    let n = revision.tags.len();
    for i in 0..n
        invariant
            n == revision.tags@.len(),
            tags == revision@.tags,
            forall|j: int| 0 <= j < i ==> tags[j].0 != Some(key),
    {
        let tag = &revision.tags[i];
        let hit = match tag.std_key {
            Some(k) => k == key,
            None => false,
        };
        if hit {
            proof {
                lemma_first_tag_step(tags, key, i as int);
            }
            return Some(tag.value.clone());
        }
    }
    proof {
        lemma_first_tag_none(tags, key);
    }
    None
}

/// The value of the tag recognised as `key`: the first such tag of the
/// container's current revision, else the first of the probe's revision.
pub fn extract_tag(
    container: &Option<MetadataRevision>,
    probe: &Option<MetadataRevision>,
    tag_key: TagKey,
) -> (r: Option<String>)
    ensures
        match r {
            Some(v) => spec_extract_tag(revision_view(*container), revision_view(*probe), tag_key)
                == Some(v@),
            None => spec_extract_tag(
                revision_view(*container),
                revision_view(*probe),
                tag_key,
            ) is None,
        },
{
    let mut value: Option<String> = None;
    if let Some(metadata) = container {
        value = find_tag(metadata, tag_key);
    }
    if value.is_none() {
        if let Some(rev) = probe {
            value = find_tag(rev, tag_key);
        }
    }
    value
}

/// The cover image: the first visual of the probe's revision if it has one,
/// else the first visual of the container's revision.
pub fn extract_cover(container: &Option<MetadataRevision>, probe: &Option<MetadataRevision>) -> (r:
    Option<Vec<u8>>)
    ensures
        match r {
            Some(c) => spec_extract_cover(revision_view(*container), revision_view(*probe))
                == Some(c@),
            None => spec_extract_cover(revision_view(*container), revision_view(*probe)) is None,
        },
{
    let mut cover: Option<Vec<u8>> = None;
    if let Some(metadata) = container {
        if metadata.visuals.len() > 0 {
            cover = Some(copy_bytes(&metadata.visuals[0]));
        }
    }
    if let Some(rev) = probe {
        if rev.visuals.len() > 0 {
            cover = Some(copy_bytes(&rev.visuals[0]));
        }
    }
    cover
}

/// The text of an optional tag value, or the fallback when there is none.
pub open spec fn text_or(v: Option<Seq<char>>, fallback: Seq<char>) -> Seq<char> {
    match v {
        Some(v) => v,
        None => fallback,
    }
}

fn unwrap_or_text(v: Option<String>, fallback: &str) -> (r: String)
    ensures
        r@ == text_or(
            match v {
                Some(s) => Some(s@),
                None => None,
            },
            fallback@,
        ),
{
    match v {
        Some(s) => s,
        None => String::from_str(fallback),
    }
}

/// The description of the track at `path` built from its metadata: title,
/// album and artist from their tags, each with a fallback text when no tag
/// gives it, and the cover from the visuals.
pub fn info_from_metadata(
    path: String,
    container: &Option<MetadataRevision>,
    probe: &Option<MetadataRevision>,
) -> (r: Info)
    ensures
        r@.path == path@,
        r@.title == text_or(
            spec_extract_tag(revision_view(*container), revision_view(*probe), TagKey::TrackTitle),
            "Title not found"@,
        ),
        r@.album == text_or(
            spec_extract_tag(revision_view(*container), revision_view(*probe), TagKey::Album),
            "Album not found"@,
        ),
        r@.artist == text_or(
            spec_extract_tag(revision_view(*container), revision_view(*probe), TagKey::Artist),
            "Artist not found"@,
        ),
        r@.cover == spec_extract_cover(revision_view(*container), revision_view(*probe)),
{
    let title = unwrap_or_text(extract_tag(container, probe, TagKey::TrackTitle), "Title not found");
    let album = unwrap_or_text(extract_tag(container, probe, TagKey::Album), "Album not found");
    let artist = unwrap_or_text(extract_tag(container, probe, TagKey::Artist), "Artist not found");
    let cover = extract_cover(container, probe);
    Info { path, title, album, artist, cover }
}

/// Whether a directory entry is skipped when the music library is listed:
/// its name is valid text (`Some`) that begins with a dot.
pub fn is_hidden_file_name(name: Option<&str>) -> (r: bool)
    ensures
        r == match name {
            Some(s) => s@.len() > 0 && s@[0] == '.',
            None => false,
        },
{
    match name {
        Some(s) => {
            let mut it = s.chars();
            match it.next() {
                Some(c) => c == '.',
                None => false,
            }
        },
        None => false,
    }
}

} // verus!
