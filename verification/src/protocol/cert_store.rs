//! The certificate directory: what it holds, and the operations that change it.
//!
//! Decisions about certificates are made on an image of the directory. Each
//! decision yields the file operations that carry it out, in order; replaying
//! them on the disk brings the disk to where the image is.

use vstd::prelude::*;

use crate::table::Table;

verus! {

/// A file of the certificate directory.
#[derive(Debug)]
pub struct StoredFile {
    pub contents: Vec<u8>,
    /// Whether only the owner may read and write the file.
    pub owner_only: bool,
}

/// A file by its contents.
pub struct FileView {
    pub contents: Seq<u8>,
    pub owner_only: bool,
}

impl View for StoredFile {
    type V = FileView;

    open spec fn view(&self) -> FileView {
        FileView { contents: self.contents@, owner_only: self.owner_only }
    }
}

/// An operation on the certificate directory or on a file in it.
#[derive(Debug)]
pub enum FileOp {
    /// Make the directory, and the ones above it.
    CreateDirectory,
    /// Close the directory to everyone but its owner.
    RestrictDirectory,
    /// Write a file; a file that exists keeps its permissions.
    Write { name: String, contents: Vec<u8> },
    /// Write a file that only its owner may read and write.
    WriteSecret { name: String, contents: Vec<u8> },
    /// Close a file to everyone but its owner.
    Restrict { name: String },
    /// Move a file with its permissions.
    Rename { from: String, to: String },
    /// Delete a file.
    Remove { name: String },
}

/// An operation by its contents.
pub enum OpView {
    CreateDirectory,
    RestrictDirectory,
    Write { name: Seq<char>, contents: Seq<u8> },
    WriteSecret { name: Seq<char>, contents: Seq<u8> },
    Restrict { name: Seq<char> },
    Rename { from: Seq<char>, to: Seq<char> },
    Remove { name: Seq<char> },
}

impl View for FileOp {
    type V = OpView;

    open spec fn view(&self) -> OpView {
        match self {
            FileOp::CreateDirectory => OpView::CreateDirectory,
            FileOp::RestrictDirectory => OpView::RestrictDirectory,
            FileOp::Write { name, contents } => OpView::Write {
                name: name@,
                contents: contents@,
            },
            FileOp::WriteSecret { name, contents } => OpView::WriteSecret {
                name: name@,
                contents: contents@,
            },
            FileOp::Restrict { name } => OpView::Restrict { name: name@ },
            FileOp::Rename { from, to } => OpView::Rename { from: from@, to: to@ },
            FileOp::Remove { name } => OpView::Remove { name: name@ },
        }
    }
}

/// The certificate directory.
pub struct Directory {
    /// Whether the directory is there.
    pub present: bool,
    /// Whether it is closed to everyone but its owner.
    pub owner_only: bool,
    /// Its files by name.
    pub files: Table<StoredFile>,
}

/// The certificate directory by its contents.
#[verifier::ext_equal]
pub struct DirView {
    pub present: bool,
    pub owner_only: bool,
    pub files: Map<Seq<char>, FileView>,
}

impl View for Directory {
    type V = DirView;

    open spec fn view(&self) -> DirView {
        DirView {
            present: self.present,
            owner_only: self.owner_only,
            files: self.files@.map_values(|f: StoredFile| f@),
        }
    }
}

impl DirView {
    /// The directory with the file `name` written; a file that is there keeps
    /// its permissions.
    pub open spec fn with_file(self, name: Seq<char>, contents: Seq<u8>) -> DirView {
        let owner_only = self.files.contains_key(name) && self.files[name].owner_only;
        DirView { files: self.files.insert(name, FileView { contents, owner_only }), ..self }
    }

    /// The directory with the file `name` written for its owner alone.
    pub open spec fn with_secret(self, name: Seq<char>, contents: Seq<u8>) -> DirView {
        DirView { files: self.files.insert(name, FileView { contents, owner_only: true }), ..self }
    }

    /// The directory with the file `name` closed to everyone but its owner.
    pub open spec fn with_restricted(self, name: Seq<char>) -> DirView {
        if self.files.contains_key(name) {
            self.with_secret(name, self.files[name].contents)
        } else {
            self
        }
    }

    /// The directory with `from` moved to `to`.
    pub open spec fn with_renamed(self, from: Seq<char>, to: Seq<char>) -> DirView {
        if self.files.contains_key(from) {
            DirView { files: self.files.remove(from).insert(to, self.files[from]), ..self }
        } else {
            self
        }
    }

    /// The directory without the file `name`.
    pub open spec fn without(self, name: Seq<char>) -> DirView {
        DirView { files: self.files.remove(name), ..self }
    }

    /// The directory after one operation.
    pub open spec fn apply(self, op: OpView) -> DirView {
        match op {
            OpView::CreateDirectory => DirView { present: true, ..self },
            OpView::RestrictDirectory => DirView { owner_only: true, ..self },
            OpView::Write { name, contents } => self.with_file(name, contents),
            OpView::WriteSecret { name, contents } => self.with_secret(name, contents),
            OpView::Restrict { name } => self.with_restricted(name),
            OpView::Rename { from, to } => self.with_renamed(from, to),
            OpView::Remove { name } => self.without(name),
        }
    }

    /// The directory after a sequence of operations.
    pub open spec fn replay(self, ops: Seq<OpView>) -> DirView
        decreases ops.len(),
    {
        if ops.len() == 0 {
            self
        } else {
            self.replay(ops.drop_last()).apply(ops.last())
        }
    }
}

/// A copy of a byte string.
pub fn copy_bytes(bytes: &Vec<u8>) -> (r: Vec<u8>)
    ensures
        r@ == bytes@,
{
    vstd::slice::slice_to_vec(bytes.as_slice())
}

impl Directory {
    /// A directory that is not there yet.
    pub fn absent() -> (r: Self)
        ensures
            r@ == (DirView { present: false, owner_only: false, files: Map::empty() }),
    {
        let r = Directory { present: false, owner_only: false, files: Table::new() };
        assert(r@.files =~= Map::<Seq<char>, FileView>::empty());
        r
    }

    /// Whether there is a file `name`.
    pub fn has(&self, name: &str) -> (r: bool)
        ensures
            r == self@.files.contains_key(name@),
    {
        self.files.contains(name)
    }

    /// What the file `name` holds.
    pub fn read(&self, name: &str) -> (r: Option<Vec<u8>>)
        ensures
            match r {
                Some(v) => self@.files.contains_key(name@) && v@ == self@.files[name@].contents,
                None => !self@.files.contains_key(name@),
            },
    {
        match self.files.get(name) {
            Some(f) => Some(copy_bytes(&f.contents)),
            None => None,
        }
    }

    /// Puts a file into the image, as it stands on the disk.
    pub fn put(&mut self, name: String, contents: Vec<u8>, owner_only: bool)
        ensures
            final(self)@ == (DirView {
                files: old(self)@.files.insert(
                    name@,
                    FileView { contents: contents@, owner_only },
                ),
                ..old(self)@
            }),
    {
        self.files.insert(name, StoredFile { contents, owner_only });
        assert(self@.files =~= old(self)@.files.insert(
            name@,
            FileView { contents: contents@, owner_only },
        ));
    }

    /// Carries out one operation on the image.
    pub fn apply(&mut self, op: &FileOp)
        ensures
            final(self)@ == old(self)@.apply(op@),
    {
        match op {
            FileOp::CreateDirectory => {
                self.present = true;
            },
            FileOp::RestrictDirectory => {
                self.owner_only = true;
            },
            FileOp::Write { name, contents } => {
                let owner_only = match self.files.get(name.as_str()) {
                    Some(f) => f.owner_only,
                    None => false,
                };
                self.put(name.clone(), copy_bytes(contents), owner_only);
            },
            FileOp::WriteSecret { name, contents } => {
                self.put(name.clone(), copy_bytes(contents), true);
            },
            FileOp::Restrict { name } => {
                match self.read(name.as_str()) {
                    Some(contents) => {
                        self.put(name.clone(), contents, true);
                    },
                    None => {},
                }
            },
            FileOp::Rename { from, to } => {
                match self.files.remove(from.as_str()) {
                    Some(f) => {
                        let ghost between = self@;
                        assert(between.files =~= old(self)@.files.remove(from@));
                        self.put(to.clone(), f.contents, f.owner_only);
                    },
                    None => {
                        assert(self@.files =~= old(self)@.files);
                    },
                }
            },
            FileOp::Remove { name } => {
                self.files.remove(name.as_str());
                assert(self@.files =~= old(self)@.files.remove(name@));
            },
        }
        assert(self@ =~= old(self)@.apply(op@));
    }
}

} // verus!
