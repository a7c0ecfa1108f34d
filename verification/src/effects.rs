//! The file-system operations that the engine asks for, and the answers it
//! is resumed with. The engine decides; whoever drives it performs.

use vstd::prelude::*;

verus! {

/// What stands at a path, links followed.
#[derive(Clone, Copy, Debug, PartialEq, Eq, Structural)]
pub enum PathKind {
    /// Nothing is there.
    Missing,
    /// A regular file.
    File,
    /// A directory.
    Directory,
    /// Something else.
    Other,
}

/// One file-system operation for the driver to perform.
#[derive(Debug)]
pub enum Request {
    /// Find out what stands at `path`. Answer: [`Reply::Kind`].
    Probe { path: String },
    /// Create `path` and every missing parent. Answer: [`Reply::Done`].
    CreateDirAll { path: String },
    /// Read the file at `path` as UTF-8. Answer: [`Reply::Text`].
    ReadToString { path: String },
    /// Replace the file at `path` by `text`. Answer: [`Reply::Done`].
    Write { path: String, text: String },
    /// List the entries of the directory `path`, each as a full path.
    /// Answer: [`Reply::Listing`].
    ReadDir { path: String },
    /// Copy the file `from` to `to`. Answer: [`Reply::Done`].
    CopyFile { from: String, to: String },
    /// Make `link` a symbolic link to `target`. Answer: [`Reply::Done`].
    Symlink { target: String, link: String },
}

/// The value of a [`Request`].
pub enum RequestView {
    Probe { path: Seq<char> },
    CreateDirAll { path: Seq<char> },
    ReadToString { path: Seq<char> },
    Write { path: Seq<char>, text: Seq<char> },
    ReadDir { path: Seq<char> },
    CopyFile { from: Seq<char>, to: Seq<char> },
    Symlink { target: Seq<char>, link: Seq<char> },
}

impl View for Request {
    type V = RequestView;

    open spec fn view(&self) -> RequestView {
        match *self {
            Request::Probe { path } => RequestView::Probe { path: path@ },
            Request::CreateDirAll { path } => RequestView::CreateDirAll { path: path@ },
            Request::ReadToString { path } => RequestView::ReadToString { path: path@ },
            Request::Write { path, text } => RequestView::Write { path: path@, text: text@ },
            Request::ReadDir { path } => RequestView::ReadDir { path: path@ },
            Request::CopyFile { from, to } => RequestView::CopyFile { from: from@, to: to@ },
            Request::Symlink { target, link } => RequestView::Symlink {
                target: target@,
                link: link@,
            },
        }
    }
}

/// The answer to a [`Request`].
#[derive(Debug)]
pub enum Reply {
    /// What a probe found.
    Kind(PathKind),
    /// The operation was performed.
    Done,
    /// The text that was read.
    Text(String),
    /// The entries of a directory, each as a full path.
    Listing(Vec<String>),
    /// The operation failed; the text is the system's diagnostic.
    Failed(String),
}

/// The texts of a list of strings.
pub open spec fn texts(list: Seq<String>) -> Seq<Seq<char>> {
    list.map_values(|s: String| s@)
}

/// The value of a [`Reply`].
pub enum ReplyView {
    Kind(PathKind),
    Done,
    Text(Seq<char>),
    Listing(Seq<Seq<char>>),
    Failed(Seq<char>),
}

impl View for Reply {
    type V = ReplyView;

    open spec fn view(&self) -> ReplyView {
        match *self {
            Reply::Kind(kind) => ReplyView::Kind(kind),
            Reply::Done => ReplyView::Done,
            Reply::Text(text) => ReplyView::Text(text@),
            Reply::Listing(entries) => ReplyView::Listing(texts(entries@)),
            Reply::Failed(reason) => ReplyView::Failed(reason@),
        }
    }
}

/// The message for an answer that does not fit the request it answers.
pub open spec fn out_of_turn() -> Seq<char> {
    "The answer does not fit the request."@
}

/// The text of [`out_of_turn`].
pub fn out_of_turn_text() -> (r: String)
    ensures
        r@ == out_of_turn(),
{
    "The answer does not fit the request.".to_owned()
}

} // verus!
