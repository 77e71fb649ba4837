//! Archive extraction: reading the downloaded zip or xz-compressed tar
//! archive held in memory, and picking the single encoder-binary entry
//! out of it.

use vstd::prelude::*;
use crate::error::ProvisionError;
use crate::text::{base_name, base_name_is, contains_seq, ends_with, str_contains, str_ends_with};

verus! {

/// The views of a list of archive entries: each entry's name and bytes.
pub open spec fn entry_views(v: Seq<(String, Vec<u8>)>) -> Seq<(Seq<char>, Seq<u8>)> {
    v.map_values(|e: (String, Vec<u8>)| (e.0@, e.1@))
}

/// The entries (name and uncompressed bytes, in archive order) of a zip
/// archive, or `None` when the bytes are not a readable zip archive. A
/// function of the archive bytes alone.
pub uninterp spec fn zip_entries_of(b: Seq<u8>) -> Option<Seq<(Seq<char>, Seq<u8>)>>;

/// Relies on zip::ZipArchive over an in-memory reader: lists every entry
/// of the archive, as its name and its uncompressed bytes, in archive
/// order; the list is a function of the archive bytes alone.
#[verifier::external_body]
fn read_zip_entries(b: &Vec<u8>) -> (r: Option<Vec<(String, Vec<u8>)>>)
    ensures
        r is Some <==> zip_entries_of(b@) is Some,
        r matches Some(v) ==> Some(entry_views(v@)) == zip_entries_of(b@),
{
    let mut archive = zip::ZipArchive::new(std::io::Cursor::new(b.clone())).ok()?;
    let mut out = Vec::new();
    for i in 0..archive.len() {
        let mut f = archive.by_index(i).ok()?;
        let name = f.name().to_string();
        let mut data = Vec::new();
        std::io::Read::read_to_end(&mut f, &mut data).ok()?;
        out.push((name, data));
    }
    Some(out)
}

/// The entries (path and bytes, in archive order) of an xz-compressed tar
/// archive, or `None` when the bytes are not a readable archive. A
/// function of the archive bytes alone.
pub uninterp spec fn tar_xz_entries_of(b: Seq<u8>) -> Option<Seq<(Seq<char>, Seq<u8>)>>;

/// Relies on xz2::read::XzDecoder and tar::Archive: decompresses the
/// bytes and lists every tar entry, as its path and its bytes, in archive
/// order; the list is a function of the archive bytes alone.
#[verifier::external_body]
fn read_tar_xz_entries(b: &Vec<u8>) -> (r: Option<Vec<(String, Vec<u8>)>>)
    ensures
        r is Some <==> tar_xz_entries_of(b@) is Some,
        r matches Some(v) ==> Some(entry_views(v@)) == tar_xz_entries_of(b@),
{
    let decoder = xz2::read::XzDecoder::new(std::io::Cursor::new(b.clone()));
    let mut archive = tar::Archive::new(decoder);
    let mut out = Vec::new();
    for entry in archive.entries().ok()? {
        let mut entry = entry.ok()?;
        let name = entry.path().ok()?.to_string_lossy().to_string();
        let mut data = Vec::new();
        std::io::Read::read_to_end(&mut entry, &mut data).ok()?;
        out.push((name, data));
    }
    Some(out)
}

/// Copies a byte vector.
fn copy_bytes(v: &Vec<u8>) -> (r: Vec<u8>)
    ensures
        r@ == v@,
{
    let mut out: Vec<u8> = Vec::new();
    let n = v.len();
    for i in 0..n
        invariant
            n == v@.len(),
            out@ == v@.take(i as int),
    {
        out.push(v[i]);
        proof {
            assert(out@ =~= v@.take(i as int + 1));
        }
    }
    assert(out@ =~= v@);
    out
}

/// Whether a zip entry is taken for the encoder binary: its name holds
/// the binary's bare name and it is not a directory entry.
pub open spec fn zip_entry_matches(name: Seq<char>) -> bool {
    contains_seq(name, "ffmpeg"@) && !ends_with(name, "/"@)
}

/// Whether a tar entry is taken for the encoder binary: the file name of
/// its path (the text after the last slash) is exactly the bare name.
pub open spec fn tar_entry_matches(path: Seq<char>) -> bool {
    base_name(path) == "ffmpeg"@
}

/// What zip extraction promises over an entry list `es` and a result
/// `r`: the bytes of the first matching entry when one exists, and the
/// missing-entry failure when none does.
pub open spec fn zip_extraction_ensures(
    es: Seq<(Seq<char>, Seq<u8>)>,
    r: Result<Vec<u8>, ProvisionError>,
) -> bool {
    &&& (r is Ok <==> exists|i: int| 0 <= i < es.len() && #[trigger] zip_entry_matches(es[i].0))
    &&& (r matches Ok(d) ==> exists|i: int|
        {
            &&& 0 <= i < es.len()
            &&& #[trigger] zip_entry_matches(es[i].0)
            &&& d@ == es[i].1
            &&& forall|j: int| 0 <= j < i ==> !zip_entry_matches(es[j].0)
        })
    &&& (r is Err ==> r matches Err(ProvisionError::MissingEntry))
}

/// What tar extraction promises: the first matching entry's bytes when
/// one exists, and the missing-entry failure when none does.
pub open spec fn tar_extraction_ensures(
    es: Seq<(Seq<char>, Seq<u8>)>,
    r: Result<Vec<u8>, ProvisionError>,
) -> bool {
    &&& (r is Ok <==> exists|i: int| 0 <= i < es.len() && #[trigger] tar_entry_matches(es[i].0))
    &&& (r matches Ok(d) ==> exists|i: int|
        {
            &&& 0 <= i < es.len()
            &&& #[trigger] tar_entry_matches(es[i].0)
            &&& d@ == es[i].1
            &&& forall|j: int| 0 <= j < i ==> !tar_entry_matches(es[j].0)
        })
    &&& (r is Err ==> r matches Err(ProvisionError::MissingEntry))
}

/// Pulls the encoder binary out of a zip archive held in memory: the
/// bytes of the first entry whose name holds the binary's bare name and
/// that is not a directory. Unreadable bytes fail as an extraction
/// failure; a readable archive without such an entry as a missing entry.
pub fn extract_binary_from_zip(archive: &Vec<u8>) -> (r: Result<Vec<u8>, ProvisionError>)
    ensures
        zip_entries_of(archive@) is None ==> r matches Err(ProvisionError::ExtractionFailed),
        zip_entries_of(archive@) matches Some(es) ==> zip_extraction_ensures(es, r),
{
    let entries = match read_zip_entries(archive) {
        None => {
            return Err(ProvisionError::ExtractionFailed);
        },
        Some(v) => v,
    };
    let ghost es = entry_views(entries@);
    let n = entries.len();
    for i in 0..n
        invariant
            n == entries@.len(),
            es == entry_views(entries@),
            Some(es) == zip_entries_of(archive@),
            forall|j: int| 0 <= j < i ==> !zip_entry_matches(#[trigger] es[j].0),
    {
        let name = entries[i].0.as_str();
        if str_contains(name, "ffmpeg") && !str_ends_with(name, "/") {
            let d = copy_bytes(&entries[i].1);
            proof {
                assert(zip_entry_matches(es[i as int].0) && d@ == es[i as int].1);
            }
            return Ok(d);
        }
    }
    Err(ProvisionError::MissingEntry)
}

/// Pulls the encoder binary out of an xz-compressed tar archive held in
/// memory: the bytes of the first entry whose path has the binary's bare
/// name as its file name. Unreadable bytes fail as an extraction failure;
/// a readable archive without such an entry as a missing entry.
pub fn extract_binary_from_tar_xz(archive: &Vec<u8>) -> (r: Result<Vec<u8>, ProvisionError>)
    ensures
        tar_xz_entries_of(archive@) is None ==> r matches Err(ProvisionError::ExtractionFailed),
        tar_xz_entries_of(archive@) matches Some(es) ==> tar_extraction_ensures(es, r),
{
    let entries = match read_tar_xz_entries(archive) {
        None => {
            return Err(ProvisionError::ExtractionFailed);
        },
        Some(v) => v,
    };
    let ghost es = entry_views(entries@);
    let n = entries.len();
    for i in 0..n
        invariant
            n == entries@.len(),
            es == entry_views(entries@),
            Some(es) == tar_xz_entries_of(archive@),
            forall|j: int| 0 <= j < i ==> !tar_entry_matches(#[trigger] es[j].0),
    {
        proof {
            reveal_strlit("ffmpeg");
        }
        let path = entries[i].0.as_str();
        if base_name_is(path, "ffmpeg") {
            let d = copy_bytes(&entries[i].1);
            proof {
                assert(tar_entry_matches(es[i as int].0) && d@ == es[i as int].1);
            }
            return Ok(d);
        }
    }
    Err(ProvisionError::MissingEntry)
}

} // verus!
