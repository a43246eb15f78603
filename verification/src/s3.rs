//! The object side of the gateway: the listing and signing requests it puts to
//! the bucket, and what it reads out of a listing.

use vstd::prelude::*;
use vstd::string::*;

verus! {

/// How long a signed URL stays valid, in seconds.
pub const URL_LIFETIME_SECS: u64 = 900;

/// A listing of the keys under `prefix`, one level deep: keys that go on behind
/// the next `delimiter` come back gathered under their common prefix.
#[derive(Debug, Clone, PartialEq, Eq)]
pub struct ListObjectsInput {
    pub bucket: String,
    pub prefix: String,
    pub delimiter: String,
}

pub struct ListObjectsInputView {
    pub bucket: Seq<char>,
    pub prefix: Seq<char>,
    pub delimiter: Seq<char>,
}

impl DeepView for ListObjectsInput {
    type V = ListObjectsInputView;

    open spec fn deep_view(&self) -> ListObjectsInputView {
        ListObjectsInputView {
            bucket: self.bucket@,
            prefix: self.prefix@,
            delimiter: self.delimiter@,
        }
    }
}

impl View for ListObjectsInput {
    type V = ListObjectsInputView;

    open spec fn view(&self) -> ListObjectsInputView {
        self.deep_view()
    }
}

/// The HTTP verb that a signed URL is good for.
#[derive(Debug, Clone, Copy, PartialEq, Eq, Structural)]
pub enum Verb {
    Put,
    Get,
    Delete,
}

/// A request to sign a URL that allows `verb` on `key` for `expires_in_secs`
/// seconds. A content type and a storage class, where given, are fixed by the
/// signature.
#[derive(Debug, Clone, PartialEq, Eq)]
pub struct PresignInput {
    pub verb: Verb,
    pub bucket: String,
    pub key: String,
    pub content_type: Option<String>,
    pub storage_class: Option<String>,
    pub expires_in_secs: u64,
}

pub struct PresignInputView {
    pub verb: Verb,
    pub bucket: Seq<char>,
    pub key: Seq<char>,
    pub content_type: Option<Seq<char>>,
    pub storage_class: Option<Seq<char>>,
    pub expires_in_secs: u64,
}

impl DeepView for PresignInput {
    type V = PresignInputView;

    open spec fn deep_view(&self) -> PresignInputView {
        PresignInputView {
            verb: self.verb,
            bucket: self.bucket@,
            key: self.key@,
            content_type: self.content_type.deep_view(),
            storage_class: self.storage_class.deep_view(),
            expires_in_secs: self.expires_in_secs,
        }
    }
}

impl View for PresignInput {
    type V = PresignInputView;

    open spec fn view(&self) -> PresignInputView {
        self.deep_view()
    }
}

/// The listing of `prefix` in `bucket`, with `/` between the levels.
pub open spec fn list_objects_request_spec(bucket: Seq<char>, prefix: Seq<char>)
    -> ListObjectsInputView {
    ListObjectsInputView { bucket, prefix, delimiter: "/"@ }
}

/// The entries of `names` that are there, in their order.
pub open spec fn present(names: Seq<Option<Seq<char>>>) -> Seq<Seq<char>>
    decreases names.len(),
{
    if names.len() == 0 {
        Seq::empty()
    } else {
        present(names.drop_last()) + match names.last() {
            Some(name) => seq![name],
            None => Seq::empty(),
        }
    }
}

/// `keys` without every key that equals `prefix`.
pub open spec fn below(keys: Seq<Seq<char>>, prefix: Seq<char>) -> Seq<Seq<char>>
    decreases keys.len(),
{
    if keys.len() == 0 {
        Seq::empty()
    } else {
        below(keys.drop_last(), prefix) + if keys.last() == prefix {
            Seq::empty()
        } else {
            seq![keys.last()]
        }
    }
}

/// The folders of a listing: the common prefixes that came back.
pub open spec fn folders(common_prefixes: Option<Seq<Option<Seq<char>>>>) -> Seq<Seq<char>> {
    match common_prefixes {
        Some(names) => present(names),
        None => Seq::empty(),
    }
}

/// The files of a listing: the keys that came back, but for the listed prefix
/// itself.
pub open spec fn files(contents: Option<Seq<Option<Seq<char>>>>, prefix: Seq<char>) -> Seq<
    Seq<char>,
> {
    match contents {
        Some(keys) => below(present(keys), prefix),
        None => Seq::empty(),
    }
}

/// The signing of an upload of `key`: a `PUT` with the content type fixed and the
/// object bound to the `GLACIER_IR` storage class.
pub open spec fn presign_upload_spec(bucket: Seq<char>, key: Seq<char>, content_type: Seq<char>)
    -> PresignInputView {
    PresignInputView {
        verb: Verb::Put,
        bucket,
        key,
        content_type: Some(content_type),
        storage_class: Some("GLACIER_IR"@),
        expires_in_secs: URL_LIFETIME_SECS,
    }
}

/// The signing of a `GET` or a `DELETE` of `key`.
pub open spec fn presign_plain_spec(verb: Verb, bucket: Seq<char>, key: Seq<char>)
    -> PresignInputView {
    PresignInputView {
        verb,
        bucket,
        key,
        content_type: None,
        storage_class: None,
        expires_in_secs: URL_LIFETIME_SECS,
    }
}

/// Builds the listing of `prefix` in `bucket`.
pub fn list_objects_request(bucket: &str, prefix: String) -> (input: ListObjectsInput)
    ensures
        input@ == list_objects_request_spec(bucket@, prefix@),
{
    ListObjectsInput { bucket: bucket.to_owned(), prefix, delimiter: String::from_str("/") }
}

/// Reads the answer to a listing of `prefix` into folders and files. A common
/// prefix or a key that the answer leaves out is skipped, and so is a key equal
/// to `prefix`, which stands for the listed folder itself.
pub fn list_objects(
    prefix: &str,
    common_prefixes: &Option<Vec<Option<String>>>,
    contents: &Option<Vec<Option<String>>>,
) -> (listing: (Vec<String>, Vec<String>))
    ensures
        listing.0.deep_view() == folders(common_prefixes.deep_view()),
        listing.1.deep_view() == files(contents.deep_view(), prefix@),
{
    let mut found_folders: Vec<String> = Vec::new();
    let mut found_files: Vec<String> = Vec::new();
    assert(found_folders.deep_view() =~= Seq::<Seq<char>>::empty());
    assert(found_files.deep_view() =~= Seq::<Seq<char>>::empty());
    match common_prefixes {
        Some(common) => {
            let mut i: usize = 0;
            assert(common.deep_view().take(0) =~= Seq::<Option<Seq<char>>>::empty());
            while i < common.len()
                invariant
                    i <= common.len(),
                    common.deep_view().len() == common.len(),
                    found_folders.deep_view() == present(common.deep_view().take(i as int)),
                decreases common.len() - i,
            {
                proof {
                    let now = common.deep_view().take(i + 1);
                    assert(now.drop_last() =~= common.deep_view().take(i as int));
                    assert(now.last() == common[i as int].deep_view());
                }
                let ghost before = found_folders.deep_view();
                match &common[i] {
                    Some(name) => {
                        found_folders.push(name.clone());
                        assert(found_folders.deep_view() =~= before + seq![name@]);
                    },
                    None => {
                        assert(found_folders.deep_view() =~= before + Seq::<Seq<char>>::empty());
                    },
                }
                i += 1;
            }
            assert(common.deep_view().take(common.len() as int) =~= common.deep_view());
        },
        None => {},
    }
    match contents {
        Some(objects) => {
            let mut i: usize = 0;
            assert(objects.deep_view().take(0) =~= Seq::<Option<Seq<char>>>::empty());
            while i < objects.len()
                invariant
                    i <= objects.len(),
                    objects.deep_view().len() == objects.len(),
                    found_files.deep_view() == below(
                        present(objects.deep_view().take(i as int)),
                        prefix@,
                    ),
                decreases objects.len() - i,
            {
                proof {
                    let now = objects.deep_view().take(i + 1);
                    assert(now.drop_last() =~= objects.deep_view().take(i as int));
                    assert(now.last() == objects[i as int].deep_view());
                }
                let ghost seen = present(objects.deep_view().take(i as int));
                let ghost before = found_files.deep_view();
                match &objects[i] {
                    Some(key) => {
                        proof {
                            let grown = seen + seq![key@];
                            assert(grown.drop_last() =~= seen);
                            assert(grown.last() == key@);
                        }
                        if !crate::text::same_text(key.as_str(), prefix) {
                            found_files.push(key.clone());
                            assert(found_files.deep_view() =~= before + seq![key@]);
                        } else {
                            assert(found_files.deep_view() =~= before + Seq::<
                                Seq<char>,
                            >::empty());
                        }
                    },
                    None => {
                        assert(seen + Seq::<Seq<char>>::empty() =~= seen);
                    },
                }
                i += 1;
            }
            assert(objects.deep_view().take(objects.len() as int) =~= objects.deep_view());
        },
        None => {},
    }
    (found_folders, found_files)
}

/// Builds the signing of an upload of `key`.
pub fn presign_upload(bucket: &str, key: String, content_type: String) -> (input: PresignInput)
    ensures
        input@ == presign_upload_spec(bucket@, key@, content_type@),
{
    PresignInput {
        verb: Verb::Put,
        bucket: bucket.to_owned(),
        key,
        content_type: Some(content_type),
        storage_class: Some(String::from_str("GLACIER_IR")),
        expires_in_secs: URL_LIFETIME_SECS,
    }
}

/// Builds the signing of a download of `key`.
pub fn presign_download(bucket: &str, key: String) -> (input: PresignInput)
    ensures
        input@ == presign_plain_spec(Verb::Get, bucket@, key@),
{
    PresignInput {
        verb: Verb::Get,
        bucket: bucket.to_owned(),
        key,
        content_type: None,
        storage_class: None,
        expires_in_secs: URL_LIFETIME_SECS,
    }
}

/// Builds the signing of a delete of `key`.
pub fn presign_delete(bucket: &str, key: String) -> (input: PresignInput)
    ensures
        input@ == presign_plain_spec(Verb::Delete, bucket@, key@),
{
    PresignInput {
        verb: Verb::Delete,
        bucket: bucket.to_owned(),
        key,
        content_type: None,
        storage_class: None,
        expires_in_secs: URL_LIFETIME_SECS,
    }
}

} // verus!
