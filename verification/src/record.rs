//! File records: the metadata of one stored file and the place where its
//! payload lives.

use vstd::prelude::*;
use vstd::string::*;

verus! {

/// Mathematical model of a file record.
pub struct FileRecord {
    pub filename: Seq<char>,
    pub content_type: Seq<char>,
    /// The payload, if the memory tier holds it.
    pub data: Option<Seq<u8>>,
    /// The path of the payload, if the disk tier holds it.
    pub file_path: Option<Seq<char>>,
}

impl FileRecord {
    /// A record has exactly one storage location: a payload in memory or a
    /// path on disk, never both and never neither.
    pub open spec fn wf(self) -> bool {
        (self.data is Some) != (self.file_path is Some)
    }

    /// A record whose payload is held in memory.
    pub open spec fn in_memory(
        filename: Seq<char>,
        content_type: Seq<char>,
        data: Seq<u8>,
    ) -> FileRecord {
        FileRecord { filename, content_type, data: Some(data), file_path: None }
    }

    /// A record whose payload is a file on disk.
    pub open spec fn on_disk(
        filename: Seq<char>,
        content_type: Seq<char>,
        file_path: Seq<char>,
    ) -> FileRecord {
        FileRecord { filename, content_type, data: None, file_path: Some(file_path) }
    }
}

/// The view of an optional byte vector.
pub open spec fn bytes_view(data: Option<Vec<u8>>) -> Option<Seq<u8>> {
    match data {
        Some(bytes) => Some(bytes@),
        None => None,
    }
}

/// The view of an optional string.
pub open spec fn text_view(text: Option<String>) -> Option<Seq<char>> {
    match text {
        Some(text) => Some(text@),
        None => None,
    }
}

/// One stored file. Every value of this type has exactly one storage
/// location.
#[derive(Debug)]
pub struct FileData {
    filename: String,
    content_type: String,
    data: Option<Vec<u8>>,
    file_path: Option<String>,
}

impl View for FileData {
    type V = FileRecord;

    closed spec fn view(&self) -> FileRecord {
        FileRecord {
            filename: self.filename@,
            content_type: self.content_type@,
            data: bytes_view(self.data),
            file_path: text_view(self.file_path),
        }
    }
}

impl FileData {
    #[verifier::type_invariant]
    pub closed spec fn inv(self) -> bool {
        (self.data is Some) != (self.file_path is Some)
    }

    /// The invariant of the type, stated of the model.
    pub proof fn lemma_inv(self)
        requires
            self.inv(),
        ensures
            self@.wf(),
    {
    }

    /// A record whose payload is held in memory.
    pub fn in_memory(filename: String, content_type: String, data: Vec<u8>) -> (record: FileData)
        ensures
            record@ == FileRecord::in_memory(filename@, content_type@, data@),
            record@.wf(),
    {
        FileData { filename, content_type, data: Some(data), file_path: None }
    }

    /// A record whose payload is the file at `file_path`.
    pub fn on_disk(filename: String, content_type: String, file_path: String) -> (record: FileData)
        ensures
            record@ == FileRecord::on_disk(filename@, content_type@, file_path@),
            record@.wf(),
    {
        FileData { filename, content_type, data: None, file_path: Some(file_path) }
    }

    /// A record from loose parts: `None` unless exactly one storage location
    /// is given.
    pub fn from_parts(
        filename: String,
        content_type: String,
        data: Option<Vec<u8>>,
        file_path: Option<String>,
    ) -> (record: Option<FileData>)
        ensures
            record is Some <==> (data is Some) != (file_path is Some),
            record matches Some(r) ==> r@ == (FileRecord {
                filename: filename@,
                content_type: content_type@,
                data: bytes_view(data),
                file_path: text_view(file_path),
            }),
    {
        if data.is_some() != file_path.is_some() {
            Some(FileData { filename, content_type, data, file_path })
        } else {
            None
        }
    }

    pub fn filename(&self) -> (name: &str)
        ensures
            name@ == self@.filename,
    {
        self.filename.as_str()
    }

    pub fn content_type(&self) -> (content_type: &str)
        ensures
            content_type@ == self@.content_type,
    {
        self.content_type.as_str()
    }

    /// The payload, if the memory tier holds it.
    pub fn data(&self) -> (data: Option<&Vec<u8>>)
        ensures
            self@.wf(),
            match data {
                Some(bytes) => self@.data == Some(bytes@),
                None => self@.data is None,
            },
    {
        proof {
            use_type_invariant(self);
        }
        match &self.data {
            Some(bytes) => Some(bytes),
            None => None,
        }
    }

    /// The path of the payload, if the disk tier holds it.
    pub fn file_path(&self) -> (file_path: Option<&str>)
        ensures
            self@.wf(),
            match file_path {
                Some(path) => self@.file_path == Some(path@),
                None => self@.file_path is None,
            },
    {
        proof {
            use_type_invariant(self);
        }
        match &self.file_path {
            Some(path) => Some(path.as_str()),
            None => None,
        }
    }

    /// Whether the memory tier holds the payload.
    pub fn is_in_memory(&self) -> (in_memory: bool)
        ensures
            self@.wf(),
            in_memory == (self@.data is Some),
            in_memory == (self@.file_path is None),
    {
        proof {
            use_type_invariant(self);
        }
        self.data.is_some()
    }
}

impl Clone for FileData {
    fn clone(&self) -> (copy: FileData)
        ensures
            copy@ == self@,
    {
        proof {
            use_type_invariant(self);
        }
        let data = match &self.data {
            Some(bytes) => {
                let copied = bytes.clone();
                assert(copied@ =~= bytes@);
                Some(copied)
            },
            None => None,
        };
        let file_path = match &self.file_path {
            Some(path) => Some(path.clone()),
            None => None,
        };
        FileData {
            filename: self.filename.clone(),
            content_type: self.content_type.clone(),
            data,
            file_path,
        }
    }
}

/// The metadata of one file as the durable backend keeps it. Times are
/// seconds since the Unix epoch.
#[derive(Debug)]
pub struct FileMapping {
    pub id: u128,
    pub filename: String,
    pub content_type: String,
    pub file_path: Option<String>,
    pub file_size: i64,
    pub is_in_memory: bool,
    pub created_at: i64,
    pub accessed_at: i64,
    pub access_count: i32,
    pub expires_at: Option<i64>,
}

impl FileMapping {
    /// A record is expired once its expiry time has passed. A record
    /// without an expiry time never expires.
    pub open spec fn expired_at(self, now: i64) -> bool {
        self.expires_at matches Some(deadline) && deadline < now
    }

    /// Whether the record is expired at `now`.
    pub fn is_expired(&self, now: i64) -> (expired: bool)
        ensures
            expired == self.expired_at(now),
    {
        match self.expires_at {
            Some(deadline) => deadline < now,
            None => false,
        }
    }
}

} // verus!
