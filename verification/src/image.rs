//! Where a re-hosted image is kept: the extension of its source, its content
//! type, its storage key and its public address.

use vstd::prelude::*;
use vstd::string::*;

use crate::text::{
    after_last, chars_of, contains, decimal, lemma_last_index_is, lemma_last_index_of,
    push_decimal, rfind_from, str_contains, string_of,
};

verus! {

/// The bucket that holds every image.
pub const BUCKET_NAME: &'static str = "anihistory-images";

/// The directory of the bucket that holds every image.
pub const KEY_PREFIX: &'static str = "assets/images/";

/// The public address of the bucket.
pub const BUCKET_URL: &'static str = "https://s3.amazonaws.com/anihistory-images/";

/// The visibility every image is stored with.
pub const PUBLIC_READ: &'static str = "public-read";

/// What an image shows.
#[derive(Clone, Copy, Debug, PartialEq, Eq, Structural)]
pub enum ImageTypes {
    Anime,
    User,
}

/// One image to fetch and to store again.
#[derive(Clone, Debug, PartialEq, Eq)]
pub struct Upload {
    /// Where the image is fetched from.
    pub source_url: String,
    pub bucket: String,
    pub key: String,
    pub content_type: String,
    pub acl: String,
    /// Where the image is found once it is stored.
    pub stored_url: String,
}

/// [`Upload`] as the contracts see it: every text is the sequence of its characters.
pub struct UploadView {
    pub source_url: Seq<char>,
    pub bucket: Seq<char>,
    pub key: Seq<char>,
    pub content_type: Seq<char>,
    pub acl: Seq<char>,
    pub stored_url: Seq<char>,
}

impl View for Upload {
    type V = UploadView;

    open spec fn view(&self) -> UploadView {
        UploadView {
            source_url: self.source_url@,
            bucket: self.bucket@,
            key: self.key@,
            content_type: self.content_type@,
            acl: self.acl@,
            stored_url: self.stored_url@,
        }
    }
}

impl DeepView for Upload {
    type V = UploadView;

    open spec fn deep_view(&self) -> UploadView {
        self.view()
    }
}

impl ImageTypes {
    /// The word that stands for the subject in a storage key.
    pub open spec fn label(self) -> Seq<char> {
        match self {
            ImageTypes::Anime => "anime"@,
            ImageTypes::User => "user"@,
        }
    }

    /// The word that stands for the subject in a storage key.
    pub fn as_str(&self) -> (word: &'static str)
        ensures
            word@ == self.label(),
    {
        match self {
            ImageTypes::Anime => "anime",
            ImageTypes::User => "user",
        }
    }

    /// The word that stands for the subject in a storage key.
    pub fn to_string(&self) -> (word: String)
        ensures
            word@ == self.label(),
    {
        String::from_str(self.as_str())
    }
}

/// The part of an address behind its last `/`.
pub open spec fn final_segment(url: Seq<char>) -> Seq<char> {
    after_last(url, '/')
}

/// The address has a `/`, and a `.` in what follows the last one.
pub open spec fn has_extension(url: Seq<char>) -> bool {
    url.contains('/') && final_segment(url).contains('.')
}

/// What follows the last `.` of the final segment.
pub open spec fn extension(url: Seq<char>) -> Seq<char> {
    after_last(final_segment(url), '.')
}

/// The content type that goes with an extension: JPEG for every extension
/// that holds `jp`, else the extension itself as the image subtype.
pub open spec fn mime_of(ext: Seq<char>) -> Seq<char> {
    if contains(ext, "jp"@) {
        "image/jpeg"@
    } else {
        "image/"@ + ext
    }
}

/// The storage key of an image: `assets/images/<subject>_<id>.<ext>`.
pub open spec fn image_key(subject: ImageTypes, id: int, ext: Seq<char>) -> Seq<char> {
    KEY_PREFIX@ + subject.label() + "_"@ + decimal(id) + "."@ + ext
}

/// The public address of a stored image.
pub open spec fn image_url(subject: ImageTypes, id: int, ext: Seq<char>) -> Seq<char> {
    BUCKET_URL@ + image_key(subject, id, ext)
}

/// What is stored for the image of a subject under a given extension.
pub open spec fn upload_for(subject: ImageTypes, id: int, url: Seq<char>, ext: Seq<char>) -> UploadView {
    UploadView {
        source_url: url,
        bucket: BUCKET_NAME@,
        key: image_key(subject, id, ext),
        content_type: mime_of(ext),
        acl: PUBLIC_READ@,
        stored_url: image_url(subject, id, ext),
    }
}

/// What is stored for the image of a subject whose source has an extension.
pub open spec fn upload_of(subject: ImageTypes, id: int, url: Seq<char>) -> UploadView {
    upload_for(subject, id, url, extension(url))
}

/// An address that ends in `/<name>.<ext>` has the extension `<ext>`,
/// whatever stands before, where `<name>` holds no `/` and `<ext>` neither
/// `/` nor `.`.
pub proof fn lemma_extension(head: Seq<char>, name: Seq<char>, ext: Seq<char>)
    requires
        !name.contains('/'),
        !ext.contains('/'),
        !ext.contains('.'),
    ensures
        has_extension(head + seq!['/'] + name + seq!['.'] + ext),
        extension(head + seq!['/'] + name + seq!['.'] + ext) == ext,
{
    let url = head + seq!['/'] + name + seq!['.'] + ext;
    let segment = name + seq!['.'] + ext;
    assert(url[head.len() as int] == '/');
    assert forall|j: int| head.len() < j < url.len() implies url[j] != '/' by {
        let k = j - head.len() - 1;
        if k < name.len() {
            assert(name[k] == url[j]);
            assert(name.contains(url[j]));
        } else if k > name.len() {
            assert(ext[k - name.len() - 1] == url[j]);
            assert(ext.contains(url[j]));
        }
    }
    lemma_last_index_is(url, '/', head.len() as int);
    assert(final_segment(url) =~= segment);
    assert(segment[name.len() as int] == '.');
    assert forall|j: int| name.len() < j < segment.len() implies segment[j] != '.' by {
        assert(ext[j - name.len() - 1] == segment[j]);
        assert(ext.contains(segment[j]));
    }
    lemma_last_index_is(segment, '.', name.len() as int);
    lemma_last_index_of(url, '/');
    lemma_last_index_of(segment, '.');
    assert(extension(url) =~= ext);
}

/// The extension of an address, where it has one.
pub fn try_get_ext(url: &str) -> (res: Option<String>)
    ensures
        res is Some <==> has_extension(url@),
        res is Some ==> res->0@ == extension(url@),
{
    let cs = chars_of(url);
    assert(cs@.skip(0) =~= url@);
    proof {
        lemma_last_index_of(url@, '/');
    }
    match rfind_from(&cs, 0, '/') {
        None => None,
        Some(slash) => {
            let ghost segment = url@.skip(slash + 1);
            assert(segment == final_segment(url@));
            proof {
                lemma_last_index_of(segment, '.');
            }
            match rfind_from(&cs, slash + 1, '.') {
                None => None,
                Some(dot) => {
                    let ext = string_of(&cs, dot + 1, cs.len());
                    assert(ext@ =~= segment.skip(dot - slash));
                    Some(ext)
                },
            }
        },
    }
}

/// The extension of an address.
pub fn get_ext(url: &str) -> (ext: String)
    requires
        has_extension(url@),
    ensures
        ext@ == extension(url@),
{
    try_get_ext(url).unwrap()
}

/// The content type that is sent with an image of the given extension.
pub fn naive_mime(ext: &String) -> (mime: String)
    ensures
        mime@ == mime_of(ext@),
{
    if str_contains(ext.as_str(), "jp") {
        String::from_str("image/jpeg")
    } else {
        let mut mime = String::from_str("image/");
        mime.append(ext.as_str());
        mime
    }
}

/// The storage key of an image.
pub fn storage_key(subject: ImageTypes, id: i32, ext: &str) -> (key: String)
    ensures
        key@ == image_key(subject, id as int, ext@),
{
    let mut key = String::from_str(KEY_PREFIX);
    key.append(subject.as_str());
    key.append("_");
    push_decimal(&mut key, id);
    key.append(".");
    key.append(ext);
    key
}

/// The public address of a stored image.
pub fn storage_url(subject: ImageTypes, id: i32, ext: &str) -> (url: String)
    ensures
        url@ == image_url(subject, id as int, ext@),
{
    let mut url = String::from_str(BUCKET_URL);
    let key = storage_key(subject, id, ext);
    url.append(key.as_str());
    url
}

/// Plans the re-hosting of an image under a given extension.
pub fn upload_with_ext(subject: ImageTypes, id: i32, source_url: &str, ext: &String) -> (upload:
    Upload)
    ensures
        upload@ == upload_for(subject, id as int, source_url@, ext@),
{
    let key = storage_key(subject, id, ext.as_str());
    let mut stored_url = String::from_str(BUCKET_URL);
    stored_url.append(key.as_str());
    Upload {
        source_url: source_url.to_owned(),
        bucket: String::from_str(BUCKET_NAME),
        key,
        content_type: naive_mime(ext),
        acl: String::from_str(PUBLIC_READ),
        stored_url,
    }
}

/// Plans the re-hosting of one image: where it is fetched from, and under
/// which bucket, key, content type and visibility it is stored. An address
/// without an extension gives no plan.
pub fn materialize(subject: ImageTypes, id: i32, source_url: &str) -> (res: Option<Upload>)
    ensures
        res is Some <==> has_extension(source_url@),
        res is Some ==> res->0@ == upload_of(subject, id as int, source_url@),
{
    match try_get_ext(source_url) {
        None => None,
        Some(ext) => Some(upload_with_ext(subject, id, source_url, &ext)),
    }
}

} // verus!
