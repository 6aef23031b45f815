//! Computing the destination file path of a transfer.
//!
//! A pure naming computation, total and free of filesystem access: no
//! existence check, no overwrite handling — those belong to the transfer
//! service. Without an explicit filename the name defaults to
//! `<identifier>.mp4`; without an explicit directory the path is relative to
//! the current working directory.

use vstd::prelude::*;

use crate::identifier::VideoIdentifier;

verus! {

/// A resolved destination path, derived deterministically from the caller's
/// overrides and the identifier.
pub struct DownloadTarget {
    path: String,
}

impl View for DownloadTarget {
    type V = Seq<char>;

    closed spec fn view(&self) -> Seq<char> {
        self.path@
    }
}

impl DownloadTarget {
    /// The path's text.
    pub fn as_str(&self) -> (r: &str)
        ensures
            r@ == self@,
    {
        self.path.as_str()
    }
}

/// The filename used when the caller gives none: the identifier with the
/// default extension.
pub open spec fn default_file_name(id: Seq<char>) -> Seq<char> {
    id + ".mp4"@
}

/// Joining a directory and a filename, as pushing onto a path does: an empty
/// directory leaves the filename relative to the working directory, an
/// absolute filename replaces the directory, and exactly one separator
/// stands between the two otherwise.
pub open spec fn spec_join(dir: Seq<char>, file: Seq<char>) -> Seq<char> {
    if dir.len() == 0 {
        file
    } else if file.len() > 0 && file[0] == '/' {
        file
    } else if dir.last() == '/' {
        dir + file
    } else {
        dir + "/"@ + file
    }
}

/// What `download_path` yields from the optional overrides and the
/// identifier.
pub open spec fn spec_download_path(
    filename: Option<Seq<char>>,
    dir: Option<Seq<char>>,
    id: Seq<char>,
) -> Seq<char> {
    let file = match filename {
        Some(f) => f,
        None => default_file_name(id),
    };
    let d = match dir {
        Some(d) => d,
        None => Seq::empty(),
    };
    spec_join(d, file)
}

/// The view of an optional string.
pub open spec fn opt_view(o: Option<String>) -> Option<Seq<char>> {
    match o {
        Some(s) => Some(s@),
        None => None,
    }
}

/// Computes the destination path from the optional filename and directory
/// overrides and the video identifier. Total: every combination yields a
/// path.
pub fn download_path(filename: Option<String>, dir: Option<String>, video_id: &VideoIdentifier)
    -> (r: DownloadTarget)
    ensures
        r@ == spec_download_path(opt_view(filename), opt_view(dir), video_id@),
{
    let file: String = match filename {
        Some(f) => f,
        None => {
            let mut f = video_id.as_str().to_owned();
            f.append(".mp4");
            f
        },
    };
    let d: String = match dir {
        Some(d) => d,
        None => String::new(),
    };
    let dlen = d.as_str().unicode_len();
    if dlen == 0 {
        DownloadTarget { path: file }
    } else if file.as_str().unicode_len() > 0 && file.as_str().get_char(0) == '/' {
        DownloadTarget { path: file }
    } else if d.as_str().get_char(dlen - 1) == '/' {
        let mut p = d;
        p.append(file.as_str());
        DownloadTarget { path: p }
    } else {
        let mut p = d;
        p.append("/");
        p.append(file.as_str());
        DownloadTarget { path: p }
    }
}

} // verus!
