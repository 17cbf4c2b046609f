//! Reading a zip archive held in memory, entry by entry, and deciding what
//! each entry becomes on disk: a directory when its name ends in `/`, a file
//! holding its unpacked bytes otherwise.

use crate::zipmod::zipperman::zip_entry_is_dir;
use std::io::{Cursor, Read};
use vstd::prelude::*;
use zip::ZipArchive;

verus! {

/// An entry of a zip archive as the `zip` crate reads it.
pub enum ZipEntryRead {
    /// The entry's name and the bytes it unpacks to.
    Read { name: String, data: Vec<u8> },
    /// No entry could be taken at that index: the archive did not open, or
    /// the index or the entry was refused.
    Missing { message: String },
    /// The entry was taken but its name or its contents could not be read.
    Broken { message: String },
}

/// A [`ZipEntryRead`] as plain values.
pub enum ZipEntryView {
    Read { name: Seq<char>, data: Seq<u8> },
    Missing { message: Seq<char> },
    Broken { message: Seq<char> },
}

impl View for ZipEntryRead {
    type V = ZipEntryView;

    open spec fn view(&self) -> ZipEntryView {
        match self {
            ZipEntryRead::Read { name, data } => ZipEntryView::Read { name: name@, data: data@ },
            ZipEntryRead::Missing { message } => ZipEntryView::Missing { message: message@ },
            ZipEntryRead::Broken { message } => ZipEntryView::Broken { message: message@ },
        }
    }
}

/// What the `zip` crate makes of the bytes `archive`: the number of entries
/// of the archive it reads, or the text of the error that refuses it. It
/// depends on the bytes alone.
pub uninterp spec fn zip_entry_count(archive: Seq<u8>) -> Result<nat, Seq<char>>;

/// What the `zip` crate reads as entry `index` of the archive `archive`.
/// It depends on the bytes and the index alone.
pub uninterp spec fn zip_entry_at(archive: Seq<u8>, index: nat) -> ZipEntryView;

pub open spec fn count_view(res: Result<usize, String>) -> Result<nat, Seq<char>> {
    match res {
        Ok(n) => Ok(n as nat),
        Err(m) => Err(m@),
    }
}

/// `ZipArchive::new` on the bytes, then `ZipArchive::len`; the error as its
/// text.
#[verifier::external_body]
fn zip_open_count(archive: &[u8]) -> (res: Result<usize, String>)
    ensures
        count_view(res) == zip_entry_count(archive@),
{
    match ZipArchive::new(Cursor::new(archive)) {
        Ok(zip) => Ok(zip.len()),
        Err(e) => Err(e.to_string()),
    }
}

/// `ZipArchive::new` on the bytes, `ZipArchive::by_index`, then the entry's
/// contents through `Read::read_to_end` and its `name`; each error as its
/// text. What it returns is named by [`zip_entry_at`].
#[verifier::external_body]
fn zip_read_entry(archive: &[u8], index: usize) -> (res: ZipEntryRead)
    ensures
        res@ == zip_entry_at(archive@, index as nat),
{
    let mut zip = match ZipArchive::new(Cursor::new(archive)) {
        Ok(zip) => zip,
        Err(e) => return ZipEntryRead::Missing { message: e.to_string() },
    };
    let mut file = match zip.by_index(index) {
        Ok(file) => file,
        Err(e) => return ZipEntryRead::Missing { message: e.to_string() },
    };
    let mut data = Vec::new();
    let read = file.read_to_end(&mut data);
    match (read, file.name()) {
        (Ok(_), Ok(name)) => ZipEntryRead::Read { name: name.into_owned(), data },
        (Err(e), _) => ZipEntryRead::Broken { message: e.to_string() },
        (_, Err(e)) => ZipEntryRead::Broken { message: e.to_string() },
    }
}

/// The number of entries of the zip archive `archive`, or the text of the
/// error that refuses it.
pub fn count_zip_entries(archive: &[u8]) -> (res: Result<usize, String>)
    ensures
        count_view(res) == zip_entry_count(archive@),
{
    zip_open_count(archive)
}

/// What extracting one entry of an archive does.
pub enum ZipStep {
    /// Create the directory `name`.
    CreateDir { name: String },
    /// Write `data` to the file `name`.
    WriteFile { name: String, data: Vec<u8> },
    /// No entry could be taken: extraction cannot go on.
    Unreadable { message: String },
    /// The entry could not be read: extraction fails with `message`.
    Failed { message: String },
}

/// `step` is what extracting the entry `entry` does: a name ending in `/`
/// becomes a directory, any other name a file holding the entry's bytes, and
/// an entry that could not be taken or read stops extraction with its
/// message.
pub open spec fn zip_step_agrees(step: ZipStep, entry: ZipEntryView) -> bool {
    match entry {
        ZipEntryView::Read { name, data } => if name.len() > 0 && name.last() == '/' {
            step matches ZipStep::CreateDir { name: n } && n@ == name
        } else {
            step matches ZipStep::WriteFile { name: n, data: d } && n@ == name && d@ == data
        },
        ZipEntryView::Missing { message } => step matches ZipStep::Unreadable { message: m } && m@
            == message,
        ZipEntryView::Broken { message } => step matches ZipStep::Failed { message: m } && m@
            == message,
    }
}

/// The bytes a step writes, if it writes a file.
pub open spec fn step_data(step: ZipStep) -> Option<Seq<u8>> {
    match step {
        ZipStep::WriteFile { data, .. } => Some(data@),
        _ => None,
    }
}

/// The name a step creates or writes, if it does either.
pub open spec fn step_name(step: ZipStep) -> Option<Seq<char>> {
    match step {
        ZipStep::CreateDir { name } => Some(name@),
        ZipStep::WriteFile { name, .. } => Some(name@),
        _ => None,
    }
}

/// A read entry whose name does not end in `/` is written as a file under
/// its own name holding every one of its unpacked bytes, however many; one
/// whose name ends in `/` becomes a directory of that name and writes no
/// bytes.
pub proof fn lemma_entries_are_written_whole(step: ZipStep, name: Seq<char>, data: Seq<u8>)
    requires
        zip_step_agrees(step, ZipEntryView::Read { name, data }),
    ensures
        step_name(step) == Some(name),
        !(name.len() > 0 && name.last() == '/') ==> step_data(step) == Some(data)
            && step_data(step).unwrap().len() == data.len(),
        name.len() > 0 && name.last() == '/' ==> step is CreateDir && step_data(step) is None,
{
}

/// What extracting the entry `entry` does (see [`zip_step_agrees`]).
pub fn zip_step_for(entry: ZipEntryRead) -> (step: ZipStep)
    ensures
        zip_step_agrees(step, entry@),
        entry@ matches ZipEntryView::Read { name, data } ==> (!(name.len() > 0 && name.last()
            == '/') ==> step_data(step) == Some(data) && step_name(step) == Some(name)),
{
    match entry {
        ZipEntryRead::Read { name, data } => {
            if zip_entry_is_dir(name.as_str()) {
                ZipStep::CreateDir { name }
            } else {
                ZipStep::WriteFile { name, data }
            }
        },
        ZipEntryRead::Missing { message } => ZipStep::Unreadable { message },
        ZipEntryRead::Broken { message } => ZipStep::Failed { message },
    }
}

/// What extracting entry `index` of the zip archive `archive` does (see
/// [`zip_step_agrees`]), the entry as the `zip` crate reads it.
pub fn zip_extraction_step(archive: &[u8], index: usize) -> (step: ZipStep)
    ensures
        zip_step_agrees(step, zip_entry_at(archive@, index as nat)),
        zip_entry_at(archive@, index as nat) matches ZipEntryView::Read { name, data } ==> (!(
        name.len() > 0 && name.last() == '/') ==> step_data(step) == Some(data) && step_name(step)
            == Some(name)),
{
    zip_step_for(zip_read_entry(archive, index))
}

} // verus!
