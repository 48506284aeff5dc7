//! The store itself: a typed in-memory value bound to a file location,
//! with deferred write-on-demand saving and backup-on-corruption recovery.

use vstd::prelude::*;

verus! {

use crate::error::JsonStoreError;
use crate::path::StorePath;
use crate::path::backup_path_for;

/// The filesystem operations the store needs. The store's user supplies
/// an implementation: a real filesystem in production, an instrumented
/// stub in tests. Nothing is assumed of an implementation; the store's
/// contracts hold for every one.
pub trait FileSystem {
    /// The full content of the file at `path`, or `None` if no file
    /// exists there or it cannot be read.
    fn read_file(&mut self, path: &str) -> Option<String>;

    /// Write `content` to the file at `path`, creating it if absent and
    /// truncating existing content; `true` on success.
    fn write_file(&mut self, path: &str, content: &str) -> bool;

    /// Copy the byte contents of the file at `from` verbatim to `to`,
    /// overwriting any prior file there; `true` on success.
    fn copy_file(&mut self, from: &str, to: &str) -> bool;
}

/// How stored values are turned into JSON text and back, and what a fresh
/// store starts from. The store's user implements this for the stored
/// type, typically over a serde derive in unverified code.
pub trait JsonCodec: Sized {
    /// The value a fresh store is set up with.
    fn default_value() -> Self;

    /// The value serialized as pretty-printed JSON text, or `None` if
    /// the value cannot be serialized; the store reports that as a
    /// failed write.
    fn to_json(&self) -> Option<String>;

    /// The value parsed back from JSON text, or `None` if the text does
    /// not parse as this type.
    fn from_json(text: &str) -> Option<Self>;
}

/// A single typed value kept synchronized with a JSON file.
///
/// The path never changes after construction, and `dirty_count` counts
/// the mutable accesses handed out since the last successful write: when
/// it is zero, nothing is pending and [`JsonStore::flush`] does no work.
pub struct JsonStore<T> {
    value: T,
    path: String,
    dirty_count: u64,
}

/// `d` increased by one, saturating at the largest representable count.
pub open spec fn spec_saturating_inc(d: u64) -> u64 {
    if d == u64::MAX {
        d
    } else {
        (d + 1) as u64
    }
}

impl<T: JsonCodec> JsonStore<T> {
    /// The in-memory value.
    pub closed spec fn spec_value(self) -> T {
        self.value
    }

    /// The text of the file location this store is bound to.
    pub closed spec fn spec_path(self) -> Seq<char> {
        self.path@
    }

    /// The number of mutable accesses since the last successful write.
    pub closed spec fn spec_dirty(self) -> u64 {
        self.dirty_count
    }

    /// Read-only access to the value; no side effect.
    pub fn value(&self) -> (r: &T)
        ensures
            *r == self.spec_value(),
    {
        &self.value
    }

    /// The number of mutable accesses handed out since the last
    /// successful write.
    pub fn dirty_count(&self) -> (r: u64)
        ensures
            r == self.spec_dirty(),
    {
        self.dirty_count
    }

    /// Mutable access to the value. Every call counts one more pending
    /// write (saturating), whether or not the caller changes anything:
    /// the count is a conservative possibly-dirty marker, not an exact
    /// mutation counter.
    pub fn value_mut(&mut self) -> (r: &mut T)
        ensures
            *r == old(self).spec_value(),
            final(self).spec_value() == *final(r),
            final(self).spec_path() == old(self).spec_path(),
            final(self).spec_dirty() == spec_saturating_inc(old(self).spec_dirty()),
    {
        self.dirty_count = if self.dirty_count == u64::MAX {
            u64::MAX
        } else {
            self.dirty_count + 1
        };
        &mut self.value
    }

    /// Read the file at `path`, parse it, and return a clean store bound
    /// to that path.
    ///
    /// A path with no textual representation is rejected as
    /// `PathNotValid` before `fs` is touched at all; a file that cannot
    /// be read gives `FileNotFound`; content that does not parse is
    /// first copied to the sibling backup location and then reported as
    /// one of the two corruption variants, telling whether that copy
    /// succeeded — the bare `FilecontentNotValid` classification never
    /// reaches the caller.
    pub fn load<F: FileSystem>(path: &StorePath, fs: &mut F) -> (r: Result<Self, JsonStoreError>)
        ensures
            match r {
                Ok(s) => {
                    &&& path.is_native()
                    &&& s.spec_path() == path.spec_text()
                    &&& s.spec_dirty() == 0
                },
                Err(e) => {
                    &&& e != JsonStoreError::FilecontentNotValid
                    &&& e != JsonStoreError::WriteFailed
                    &&& (e == JsonStoreError::PathNotValid <==> !path.is_native())
                },
            },
            !path.is_native() ==> *final(fs) == *old(fs),
    {
        let path_text = match path {
            StorePath::Native(text) => text.clone(),
            StorePath::NotRepresentable => {
                return Err(JsonStoreError::PathNotValid);
            },
        };
        match Self::read_and_deserialize_file(&path_text, fs) {
            Err(JsonStoreError::FilecontentNotValid) => {
                let backup_created = Self::backup_db_file(&path_text, fs);
                Err(JsonStoreError::refined_corruption(backup_created))
            },
            Err(e) => Err(e),
            Ok(value) => Ok(JsonStore { value, path: path_text, dirty_count: 0 }),
        }
    }

    /// The read-and-parse step of `load`: the file's content, parsed as
    /// the stored type. The corrupt-content classification comes back
    /// bare; `load` refines it by the outcome of the backup copy.
    fn read_and_deserialize_file<F: FileSystem>(path_text: &String, fs: &mut F) -> (r: Result<
        T,
        JsonStoreError,
    >)
        ensures
            r matches Err(e) ==> e == JsonStoreError::FileNotFound || e
                == JsonStoreError::FilecontentNotValid,
    {
        let content = match fs.read_file(path_text.as_str()) {
            Some(content) => content,
            None => {
                return Err(JsonStoreError::FileNotFound);
            },
        };
        match T::from_json(content.as_str()) {
            Some(value) => Ok(value),
            None => Err(JsonStoreError::FilecontentNotValid),
        }
    }

    /// The recovery side effect of `load` on corrupt content: copy the
    /// corrupt file verbatim to the fixed sibling backup location,
    /// overwriting any prior backup; `true` if the copy succeeded.
    fn backup_db_file<F: FileSystem>(path_text: &String, fs: &mut F) -> (r: bool) {
        let backup_file_path = backup_path_for(path_text.as_str());
        fs.copy_file(path_text.as_str(), backup_file_path.as_str())
    }

    /// The serialize-and-write step shared by `setup`, `update` and
    /// `flush`: serialize the value to pretty-printed text, open the
    /// file for writing (creating it if absent, truncating existing
    /// content) and write the full text in one operation. `false` where
    /// the value cannot be serialized — the filesystem is then not
    /// touched — or the write fails.
    fn serialize_and_write_file<F: FileSystem>(value: &T, path_text: &String, fs: &mut F) -> (r:
        bool)
    {
        match value.to_json() {
            Some(text) => fs.write_file(path_text.as_str(), text.as_str()),
            None => false,
        }
    }

    /// Serialize the default value, write it to `path` (creating or
    /// truncating the file), and return a clean store holding it.
    ///
    /// A path with no textual representation is rejected as
    /// `PathNotValid` before `fs` is touched at all; a value that
    /// cannot be serialized or a failed write is `WriteFailed`.
    pub fn setup<F: FileSystem>(path: &StorePath, fs: &mut F) -> (r: Result<Self, JsonStoreError>)
        ensures
            match r {
                Ok(s) => {
                    &&& path.is_native()
                    &&& s.spec_path() == path.spec_text()
                    &&& s.spec_dirty() == 0
                },
                Err(e) => {
                    &&& e == JsonStoreError::PathNotValid || e == JsonStoreError::WriteFailed
                    &&& (e == JsonStoreError::PathNotValid <==> !path.is_native())
                },
            },
            !path.is_native() ==> *final(fs) == *old(fs),
    {
        let path_text = match path {
            StorePath::Native(text) => text.clone(),
            StorePath::NotRepresentable => {
                return Err(JsonStoreError::PathNotValid);
            },
        };
        let value = T::default_value();
        if Self::serialize_and_write_file(&value, &path_text, fs) {
            Ok(JsonStore { value, path: path_text, dirty_count: 0 })
        } else {
            Err(JsonStoreError::WriteFailed)
        }
    }

    /// Persist pending changes, if any. With a nonzero dirty count the
    /// value is serialized and written, the count is reset, and `true`
    /// comes back; with a clean store nothing at all happens — `fs` is
    /// untouched — and `false` comes back. Calling `flush` twice in a
    /// row thus writes at most once: a successful first call leaves the
    /// store clean, so the second call is a no-op returning `false`.
    pub fn flush<F: FileSystem>(&mut self, fs: &mut F) -> (r: Result<bool, JsonStoreError>)
        ensures
            final(self).spec_value() == old(self).spec_value(),
            final(self).spec_path() == old(self).spec_path(),
            old(self).spec_dirty() == 0 ==> {
                &&& r == Ok::<bool, JsonStoreError>(false)
                &&& *final(self) == *old(self)
                &&& *final(fs) == *old(fs)
            },
            old(self).spec_dirty() != 0 ==> {
                ||| (r == Ok::<bool, JsonStoreError>(true) && final(self).spec_dirty() == 0)
                ||| (r == Err::<bool, JsonStoreError>(JsonStoreError::WriteFailed) && *final(self)
                    == *old(self))
            },
    {
        if self.dirty_count == 0 {
            return Ok(false);
        }
        if Self::serialize_and_write_file(&self.value, &self.path, fs) {
            self.dirty_count = 0;
            Ok(true)
        } else {
            Err(JsonStoreError::WriteFailed)
        }
    }

    /// Apply a pure transformation to the value and persist the result
    /// at once: the synchronous mutate-and-persist path. On success the
    /// store is clean. If serializing or writing fails, the transformed
    /// value stays in memory as one more pending change, counted like a
    /// `value_mut` access.
    pub fn update<F: FileSystem, G: FnOnce(&T) -> T>(
        &mut self,
        transform: G,
        fs: &mut F,
    ) -> (r: Result<(), JsonStoreError>)
        requires
            call_requires(transform, (&old(self).spec_value(),)),
        ensures
            final(self).spec_path() == old(self).spec_path(),
            call_ensures(transform, (&old(self).spec_value(),), final(self).spec_value()),
            r is Ok ==> final(self).spec_dirty() == 0,
            r is Err ==> {
                &&& r == Err::<(), JsonStoreError>(JsonStoreError::WriteFailed)
                &&& final(self).spec_dirty() == spec_saturating_inc(old(self).spec_dirty())
            },
    {
        let next = transform(&self.value);
        self.value = next;
        if Self::serialize_and_write_file(&self.value, &self.path, fs) {
            self.dirty_count = 0;
            Ok(())
        } else {
            self.dirty_count = if self.dirty_count == u64::MAX {
                u64::MAX
            } else {
                self.dirty_count + 1
            };
            Err(JsonStoreError::WriteFailed)
        }
    }
}

} // verus!
