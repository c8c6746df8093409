//! Metadata records — one (filename, content-checksum) pair per file — and
//! the reconciliation step that turns a remote and a local snapshot into the
//! set of files that must be transferred.

use vstd::prelude::*;
use vstd::string::*;
use crate::checksum::{checksum_from_bytes, checksums_equal, sha1_of};
use crate::sync_error::{SyncErrorKind, SynchronizeRunnerError};

verus! {

/// Ghost image of a metadata record.
pub ghost struct FileMetadataView {
    pub file_name: Seq<char>,
    pub checksum: Seq<u8>,
}

/// One file's identity for comparison purposes: its name and the digest of
/// its full content. A record is rebuilt from scratch on every cycle and
/// discarded afterwards.
#[derive(Debug, Clone)]
pub struct FileMetadata {
    checksum: Vec<u8>,
    file_name: String,
}

/// The parts a metadata record is assembled from.
pub struct FileMetadataBuilder {
    pub checksum: Vec<u8>,
    pub file_name: String,
}

impl View for FileMetadata {
    type V = FileMetadataView;

    closed spec fn view(&self) -> FileMetadataView {
        FileMetadataView { file_name: self.file_name@, checksum: self.checksum@ }
    }
}

impl FileMetadata {
    /// Assembles a record from its parts.
    pub fn new(builder: FileMetadataBuilder) -> (metadata: FileMetadata)
        ensures
            metadata@.file_name == builder.file_name@,
            metadata@.checksum == builder.checksum@,
    {
        let FileMetadataBuilder { checksum, file_name } = builder;
        Self { file_name, checksum }
    }

    /// Builds a record for text content by digesting the content's bytes.
    pub fn from_content(content: &str, file_name: String) -> (result: Result<
        FileMetadata,
        SynchronizeRunnerError,
    >)
        ensures
            result matches Ok(metadata) && metadata@.file_name == file_name@
                && metadata@.checksum == sha1_of(content.spec_bytes()),
    {
        let checksum = checksum_from_bytes(content.as_bytes());
        Ok(Self { file_name, checksum })
    }

    /// Whether two records carry the same content digest.
    pub fn equal_checksum(&self, other: &FileMetadata) -> (equal: bool)
        ensures
            equal == (self@.checksum == other@.checksum),
    {
        checksums_equal(&self.checksum, &other.checksum)
    }

    /// The record's filename.
    pub fn file_name(&self) -> (name: &str)
        ensures
            name@ == self@.file_name,
    {
        self.file_name.as_str()
    }

    /// The record's content digest.
    pub fn checksum(&self) -> (checksum: &Vec<u8>)
        ensures
            checksum@ == self@.checksum,
    {
        &self.checksum
    }

    /// A record equal to this one, safe to hand out while keeping the
    /// original.
    fn duplicate(&self) -> (copy: FileMetadata)
        ensures
            copy@ == self@,
    {
        FileMetadata {
            checksum: vstd::slice::slice_to_vec(self.checksum.as_slice()),
            file_name: self.file_name.clone(),
        }
    }
}

/// Relies on std's `str::from_utf8`: it succeeds exactly on valid UTF-8, and
/// the decoded text re-encodes to the input bytes.
#[verifier::external_body]
fn utf8_to_string(bytes: &[u8]) -> (decoded: Option<String>)
    ensures
        match decoded {
            Some(text) => vstd::utf8::valid_utf8(bytes@) && vstd::utf8::encode_utf8(text@)
                == bytes@,
            None => !vstd::utf8::valid_utf8(bytes@),
        },
{
    match core::str::from_utf8(bytes) {
        Ok(text) => Some(text.to_owned()),
        Err(_) => None,
    }
}

/// Builds the metadata record for one remote file from the raw bytes fetched
/// over the transport: validates that the content is well-formed text and
/// digests it. The digest of the validated text equals the digest of the
/// fetched bytes themselves.
pub fn metadata_from_fetched_bytes(content: &[u8], file_name: String) -> (result: Result<
    FileMetadata,
    SynchronizeRunnerError,
>)
    ensures
        vstd::utf8::valid_utf8(content@) <==> result is Ok,
        result matches Ok(metadata) ==> metadata@.file_name == file_name@ && metadata@.checksum
            == sha1_of(content@),
        result matches Err(error) ==> error@.kind == SyncErrorKind::Encoding,
{
    match utf8_to_string(content) {
        Some(text) => {
            match FileMetadata::from_content(text.as_str(), file_name) {
                Ok(metadata) => Ok(metadata),
                Err(error) => Err(error),
            }
        },
        None => Err(
            SynchronizeRunnerError::encoding_error(
                String::from_str("Remote file content is not valid UTF-8 text"),
            ),
        ),
    }
}

/// The records a list of per-entry fetch outcomes keeps: failed entries are
/// dropped, the rest keep their order.
pub open spec fn kept_views(outcomes: Seq<Option<FileMetadata>>) -> Seq<FileMetadataView>
    decreases outcomes.len(),
{
    if outcomes.len() == 0 {
        Seq::empty()
    } else {
        let rest = kept_views(outcomes.drop_last());
        match outcomes.last() {
            Some(metadata) => rest.push(metadata@),
            None => rest,
        }
    }
}

/// The best-effort policy of the two metadata fetchers: a single entry whose
/// name could not be read, or whose content could not be fetched or hashed,
/// is dropped from the snapshot silently; one bad file never aborts the
/// batch.
pub fn collect_fetched_metadata(outcomes: Vec<Option<FileMetadata>>) -> (kept: Vec<FileMetadata>)
    ensures
        views(kept@) == kept_views(outcomes@),
{
    let mut kept: Vec<FileMetadata> = Vec::new();
    let mut index: usize = 0;
    while index < outcomes.len()
        invariant
            index <= outcomes@.len(),
            views(kept@) == kept_views(outcomes@.subrange(0, index as int)),
        decreases outcomes@.len() - index,
    {
        match &outcomes[index] {
            Some(metadata) => kept.push(metadata.duplicate()),
            None => {},
        }
        proof {
            let prefix = outcomes@.subrange(0, index as int);
            let extended = outcomes@.subrange(0, index + 1);
            assert(extended.drop_last() =~= prefix);
            assert(extended.last() == outcomes@[index as int]);
            assert(views(kept@) =~= kept_views(extended));
        }
        index += 1;
    }
    proof {
        assert(outcomes@.subrange(0, outcomes@.len() as int) =~= outcomes@);
    }
    kept
}

/// The ghost images of a list of records, in order.
pub open spec fn views(list: Seq<FileMetadata>) -> Seq<FileMetadataView> {
    list.map_values(|metadata: FileMetadata| metadata@)
}

/// Whether some record in the list carries the given name.
pub open spec fn contains_name(list: Seq<FileMetadataView>, name: Seq<char>) -> bool {
    exists|i: int| 0 <= i < list.len() && list[i].file_name == name
}

/// Filenames are unique within one snapshot.
pub open spec fn unique_names(list: Seq<FileMetadataView>) -> bool {
    forall|i: int, j: int| 0 <= i < j < list.len() ==> list[i].file_name != list[j].file_name
}

/// The first record in the list with the given name (callers only apply this
/// where such a record exists).
pub open spec fn record_named(list: Seq<FileMetadataView>, name: Seq<char>) -> FileMetadataView
    decreases list.len(),
{
    if list.len() == 0 {
        vstd::pervasive::arbitrary()
    } else if list[0].file_name == name {
        list[0]
    } else {
        record_named(list.drop_first(), name)
    }
}

/// Whether a remote record must be transferred, judged against the local
/// snapshot: it is new (no local record has its name) or changed (the local
/// record with its name has a different digest).
pub open spec fn is_new_or_changed(
    remote_record: FileMetadataView,
    local: Seq<FileMetadataView>,
) -> bool {
    ||| !contains_name(local, remote_record.file_name)
    ||| record_named(local, remote_record.file_name).checksum != remote_record.checksum
}

/// The records of the remote snapshot that are new or changed relative to the
/// local one, in remote order. Local-only records are never examined: the
/// mirror is remote-authoritative and non-destructive.
pub open spec fn reconcile(
    remote: Seq<FileMetadataView>,
    local: Seq<FileMetadataView>,
) -> Seq<FileMetadataView>
    decreases remote.len(),
{
    if remote.len() == 0 {
        Seq::empty()
    } else {
        let rest = reconcile(remote.drop_last(), local);
        if is_new_or_changed(remote.last(), local) {
            rest.push(remote.last())
        } else {
            rest
        }
    }
}

/// The first record named `name` is the one at the first matching index.
proof fn lemma_record_named_first_match(list: Seq<FileMetadataView>, name: Seq<char>, j: int)
    requires
        0 <= j < list.len(),
        list[j].file_name == name,
        forall|k: int| 0 <= k < j ==> list[k].file_name != name,
    ensures
        record_named(list, name) == list[j],
    decreases j,
{
    if j > 0 {
        lemma_record_named_first_match(list.drop_first(), name, j - 1);
    }
}

/// Finds the first local record carrying the given name.
fn find_record_with_name<'a>(list: &'a [FileMetadata], name: &String) -> (found: Option<
    &'a FileMetadata,
>)
    ensures
        match found {
            Some(metadata) => contains_name(views(list@), name@) && metadata@ == record_named(
                views(list@),
                name@,
            ),
            None => !contains_name(views(list@), name@),
        },
{
    let mut index: usize = 0;
    while index < list.len()
        invariant
            index <= list@.len(),
            forall|k: int| 0 <= k < index ==> views(list@)[k].file_name != name@,
        decreases list@.len() - index,
    {
        if list[index].file_name.eq(name) {
            proof {
                lemma_record_named_first_match(views(list@), name@, index as int);
            }
            return Some(&list[index]);
        }
        index += 1;
    }
    None
}

/// Computes the change set of one cycle: every remote record that is new or
/// changed relative to the local snapshot, in remote-list order.
pub fn reduce_remote_metadata_list_to_modified_or_not_exist_local(
    remote_metadata_list: &[FileMetadata],
    local_metadata_list: &[FileMetadata],
) -> (changed: Vec<FileMetadata>)
    ensures
        views(changed@) == reconcile(views(remote_metadata_list@), views(local_metadata_list@)),
{
    let ghost remote_views = views(remote_metadata_list@);
    let ghost local_views = views(local_metadata_list@);
    let mut changed: Vec<FileMetadata> = Vec::new();
    let mut index: usize = 0;
    while index < remote_metadata_list.len()
        invariant
            index <= remote_metadata_list@.len(),
            remote_views == views(remote_metadata_list@),
            local_views == views(local_metadata_list@),
            views(changed@) == reconcile(remote_views.subrange(0, index as int), local_views),
        decreases remote_metadata_list@.len() - index,
    {
        let remote_record = &remote_metadata_list[index];
        let found = find_record_with_name(local_metadata_list, &remote_record.file_name);
        let needs_transfer = match found {
            None => true,
            Some(local_record) => !remote_record.equal_checksum(local_record),
        };
        proof {
            assert(needs_transfer == is_new_or_changed(remote_views[index as int], local_views));
        }
        if needs_transfer {
            changed.push(remote_record.duplicate());
        }
        proof {
            let prefix = remote_views.subrange(0, index as int);
            let extended = remote_views.subrange(0, index + 1);
            assert(extended.drop_last() =~= prefix);
            assert(extended.last() == remote_views[index as int]);
            if needs_transfer {
                assert(views(changed@) =~= reconcile(extended, local_views));
            } else {
                assert(views(changed@) =~= reconcile(extended, local_views));
            }
        }
        index += 1;
    }
    proof {
        assert(remote_views.subrange(0, remote_metadata_list@.len() as int) =~= remote_views);
    }
    changed
}

/// The filenames of a list of records, in order.
pub open spec fn names_of(list: Seq<FileMetadataView>) -> Seq<Seq<char>> {
    list.map_values(|metadata: FileMetadataView| metadata.file_name)
}

/// Computes the filenames of one cycle's change set, in remote-list order;
/// these are the files the transfer engine must fetch.
pub fn changed_file_names(
    remote_metadata_list: &[FileMetadata],
    local_metadata_list: &[FileMetadata],
) -> (names: Vec<String>)
    ensures
        names@.map_values(|s: String| s@) == names_of(
            reconcile(views(remote_metadata_list@), views(local_metadata_list@)),
        ),
{
    let changed = reduce_remote_metadata_list_to_modified_or_not_exist_local(
        remote_metadata_list,
        local_metadata_list,
    );
    let mut names: Vec<String> = Vec::new();
    let mut index: usize = 0;
    while index < changed.len()
        invariant
            index <= changed@.len(),
            names@.map_values(|s: String| s@) =~= names_of(
                views(changed@).subrange(0, index as int),
            ),
        decreases changed@.len() - index,
    {
        names.push(changed[index].file_name.clone());
        proof {
            let prefix = views(changed@).subrange(0, index as int);
            let extended = views(changed@).subrange(0, index + 1);
            assert(extended =~= prefix.push(changed@[index as int]@));
            assert(names_of(extended) =~= names_of(prefix).push(
                changed@[index as int]@.file_name,
            ));
            assert(names@.map_values(|s: String| s@) =~= names_of(prefix).push(
                changed@[index as int]@.file_name,
            ));
        }
        index += 1;
    }
    proof {
        assert(views(changed@).subrange(0, changed@.len() as int) =~= views(changed@));
    }
    names
}

/// The change set is drawn from the remote snapshot alone: every record in it
/// is a remote record that was new or changed, so no filename absent from the
/// remote snapshot — in particular no local-only filename — ever appears.
pub proof fn lemma_reconcile_remote_authoritative(
    remote: Seq<FileMetadataView>,
    local: Seq<FileMetadataView>,
)
    ensures
        forall|j: int| 0 <= j < reconcile(remote, local).len() ==> (#[trigger] remote.contains(
            reconcile(remote, local)[j],
        ) && is_new_or_changed(reconcile(remote, local)[j], local) && contains_name(
            remote,
            reconcile(remote, local)[j].file_name,
        )),
    decreases remote.len(),
{
    if remote.len() > 0 {
        let prefix = remote.drop_last();
        lemma_reconcile_remote_authoritative(prefix, local);
        assert forall|j: int| 0 <= j < reconcile(remote, local).len() implies (
        #[trigger] remote.contains(reconcile(remote, local)[j]) && is_new_or_changed(
            reconcile(remote, local)[j],
            local,
        ) && contains_name(remote, reconcile(remote, local)[j].file_name)) by {
            let result = reconcile(remote, local);
            let rest = reconcile(prefix, local);
            if j < rest.len() {
                let record = rest[j];
                assert(prefix.contains(record));
                let i = choose|i: int| 0 <= i < prefix.len() && prefix[i] == record;
                assert(remote[i] == record);
                assert(remote.contains(record));
                assert(remote[i].file_name == record.file_name);
            } else {
                assert(result[j] == remote.last());
                assert(remote[remote.len() - 1] == remote.last());
                assert(remote.contains(remote.last()));
            }
        }
    }
}

/// A filename appears in the change set exactly when some remote record
/// carries it and that record is new or changed relative to the local
/// snapshot.
proof fn lemma_reconcile_contains_name_iff(
    remote: Seq<FileMetadataView>,
    local: Seq<FileMetadataView>,
    name: Seq<char>,
)
    ensures
        contains_name(reconcile(remote, local), name) <==> exists|i: int|
            0 <= i < remote.len() && remote[i].file_name == name && is_new_or_changed(
                remote[i],
                local,
            ),
    decreases remote.len(),
{
    if remote.len() > 0 {
        let prefix = remote.drop_last();
        lemma_reconcile_contains_name_iff(prefix, local, name);
        let result = reconcile(remote, local);
        let rest = reconcile(prefix, local);
        if contains_name(result, name) {
            let j = choose|j: int| 0 <= j < result.len() && result[j].file_name == name;
            if j < rest.len() {
                assert(contains_name(rest, name));
                let i = choose|i: int|
                    0 <= i < prefix.len() && prefix[i].file_name == name && is_new_or_changed(
                        prefix[i],
                        local,
                    );
                assert(remote[i] == prefix[i]);
                assert(0 <= i < remote.len() && remote[i].file_name == name && is_new_or_changed(
                    remote[i],
                    local,
                ));
            } else {
                let i = remote.len() - 1;
                assert(result[j] == remote.last());
                assert(remote[i].file_name == name && is_new_or_changed(remote[i], local));
            }
        }
        if exists|i: int|
            0 <= i < remote.len() && remote[i].file_name == name && is_new_or_changed(
                remote[i],
                local,
            ) {
            let i = choose|i: int|
                0 <= i < remote.len() && remote[i].file_name == name && is_new_or_changed(
                    remote[i],
                    local,
                );
            if i < remote.len() - 1 {
                assert(prefix[i] == remote[i]);
                assert(contains_name(rest, name));
                let j = choose|j: int| 0 <= j < rest.len() && rest[j].file_name == name;
                assert(result[j] == rest[j]);
                assert(contains_name(result, name));
            } else {
                assert(remote[i] == remote.last());
                assert(result[result.len() - 1] == remote.last());
                assert(contains_name(result, name));
            }
        }
    }
}

/// The reconciliation law: for snapshots whose filenames are unique — the
/// invariant every snapshot satisfies — a filename is in the change set
/// exactly when the remote snapshot carries it and it is either absent
/// locally or carried locally with a different digest.
pub proof fn lemma_reconcile_membership(
    remote: Seq<FileMetadataView>,
    local: Seq<FileMetadataView>,
    name: Seq<char>,
)
    requires
        unique_names(remote),
    ensures
        contains_name(reconcile(remote, local), name) <==> (contains_name(remote, name) && (
        !contains_name(local, name) || record_named(local, name).checksum != record_named(
            remote,
            name,
        ).checksum)),
{
    lemma_reconcile_contains_name_iff(remote, local, name);
    if contains_name(remote, name) {
        let i = choose|i: int| 0 <= i < remote.len() && remote[i].file_name == name;
        assert forall|k: int| 0 <= k < i implies remote[k].file_name != name by {}
        lemma_record_named_first_match(remote, name, i);
        assert forall|i2: int|
            0 <= i2 < remote.len() && remote[i2].file_name == name implies remote[i2]
            == record_named(remote, name) by {
            if i2 != i {
                assert(remote[i].file_name != remote[i2].file_name);
            }
        }
    }
}

/// Reconciliation is pure and deterministic: identical snapshots yield
/// identical, identically ordered change sets, however often it is repeated.
pub proof fn lemma_reconcile_deterministic(
    remote_a: Seq<FileMetadataView>,
    local_a: Seq<FileMetadataView>,
    remote_b: Seq<FileMetadataView>,
    local_b: Seq<FileMetadataView>,
)
    requires
        remote_a == remote_b,
        local_a == local_b,
    ensures
        reconcile(remote_a, local_a) == reconcile(remote_b, local_b),
{
}

} // verus!
