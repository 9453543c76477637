//! What plugins may do to the command line tool: add schema sources of their own.

use vstd::prelude::*;

use std::path::PathBuf;

use crate::cli::file_store::{FileKind, FileStore};

verus! {

/// The path that `PathBuf::from` makes of a text.
pub uninterp spec fn path_of_text(s: Seq<char>) -> PathBuf;

/// `PathBuf::from` on a string slice: the path of that text, as named by `path_of_text`.
/// What a path holds is not restated; the library only carries paths through.
#[verifier::external_body]
fn path_from_str(s: &str) -> (r: PathBuf)
    ensures
        r == path_of_text(s@),
{
    PathBuf::from(s)
}

/// Gives plugins access to the file store.
pub struct PluginHost<'host> {
    pub file_store: &'host mut FileStore,
}

impl<'host> PluginHost<'host> {
    pub fn new(file_store: &'host mut FileStore) -> (r: Self)
        ensures
            *r.file_store == *old(file_store),
            *final(file_store) == *final(r.file_store),
    {
        Self { file_store }
    }

    /// Adds a schema source made by a plugin, under the path `(plugin)`, and returns the
    /// stored source.
    pub fn load_virtual_file(&mut self, content: String) -> (r: &str)
        requires
            !old(self).file_store.has_operations(),
            old(self).file_store@.len() < usize::MAX,
        ensures
            final(self).file_store@.len() == old(self).file_store@.len() + 1,
            final(self).file_store@.subrange(0, old(self).file_store@.len() as int)
                == old(self).file_store@,
            final(self).file_store@.last().0 == path_of_text("(plugin)"@),
            final(self).file_store@.last().1 == content,
            final(self).file_store@.last().2 == FileKind::Schema,
            r@ == content@,
    {
        let index = self.file_store.add_file(path_from_str("(plugin)"), content, FileKind::Schema);
        let file = self.file_store.get_file(index);
        match file {
            Some(f) => f.1.as_str(),
            None => {
                proof {
                    assert(false);
                }
                ""
            },
        }
    }
}

} // verus!
