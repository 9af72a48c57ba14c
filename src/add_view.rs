//! The rule that admits a sound file, and the dialog that adds a button.

use vstd::prelude::*;
use crate::board::{ButtonMessage, Sound};

verus! {

/// Where the last `.`-separated segment of a path starts: just past its last
/// `.`, or at 0 when it has none.
pub open spec fn segment_start(s: Seq<char>) -> int
    decreases s.len(),
{
    if s.len() == 0 {
        0
    } else if s.last() == '.' {
        s.len() as int
    } else {
        segment_start(s.drop_last())
    }
}

/// The last `.`-separated segment of a path: its extension, or the whole
/// path when it has no `.`.
pub open spec fn extension(s: Seq<char>) -> Seq<char> {
    s.subrange(segment_start(s), s.len() as int)
}

/// The extensions of the formats that can be played.
pub open spec fn is_allowed_extension(e: Seq<char>) -> bool {
    ||| e == seq!['m', 'p', '3']
    ||| e == seq!['w', 'a', 'v']
    ||| e == seq!['o', 'g', 'g']
    ||| e == seq!['f', 'l', 'a', 'c']
}

/// A path is playable when the file exists and its extension is allowed.
pub open spec fn playable(path: Seq<char>, exists: bool) -> bool {
    exists && is_allowed_extension(extension(path))
}

/// Where the last segment of `path` starts.
fn last_segment_start(path: &str) -> (r: usize)
    ensures
        r == segment_start(path@),
        r <= path@.len(),
{
    let n = path.unicode_len();
    let mut i: usize = n;
    proof {
        assert(path@.subrange(0, n as int) =~= path@);
    }
    while i > 0 && path.get_char(i - 1) != '.'
        invariant
            i <= n,
            n == path@.len(),
            segment_start(path@) == segment_start(path@.subrange(0, i as int)),
        decreases i,
    {
        proof {
            assert(path@.subrange(0, i as int).drop_last() =~= path@.subrange(0, i - 1));
        }
        i = i - 1;
    }
    i
}

/// Whether `path[start..n]` is an allowed extension.
fn is_allowed_at(path: &str, start: usize, n: usize) -> (r: bool)
    requires
        start <= n,
        n == path@.len(),
    ensures
        r == is_allowed_extension(path@.subrange(start as int, n as int)),
{
    let e = Ghost(path@.subrange(start as int, n as int));
    assert(seq!['m', 'p', '3'].len() == 3 && seq!['w', 'a', 'v'].len() == 3);
    assert(seq!['o', 'g', 'g'].len() == 3 && seq!['f', 'l', 'a', 'c'].len() == 4);
    if n - start == 3 {
        let a = path.get_char(start);
        let b = path.get_char(start + 1);
        let c = path.get_char(start + 2);
        assert(e@[0] == a && e@[1] == b && e@[2] == c);
        let r = (a == 'm' && b == 'p' && c == '3') || (a == 'w' && b == 'a' && c == 'v') || (a
            == 'o' && b == 'g' && c == 'g');
        proof {
            if r {
                if a == 'm' {
                    assert(e@ =~= seq!['m', 'p', '3']);
                } else if a == 'w' {
                    assert(e@ =~= seq!['w', 'a', 'v']);
                } else {
                    assert(e@ =~= seq!['o', 'g', 'g']);
                }
            }
        }
        r
    } else if n - start == 4 {
        let a = path.get_char(start);
        let b = path.get_char(start + 1);
        let c = path.get_char(start + 2);
        let d = path.get_char(start + 3);
        assert(e@[0] == a && e@[1] == b && e@[2] == c && e@[3] == d);
        let r = a == 'f' && b == 'l' && c == 'a' && d == 'c';
        proof {
            if r {
                assert(e@ =~= seq!['f', 'l', 'a', 'c']);
            }
        }
        r
    } else {
        false
    }
}

/// Whether a file may be bound to a button: it exists (as the caller found
/// on disk) and the last `.`-separated segment of its path is `mp3`, `wav`,
/// `ogg` or `flac`. Only the name is looked at, never the content.
pub fn check_filetype(path: &str, exists: bool) -> (r: bool)
    ensures
        r == playable(path@, exists),
{
    if !exists {
        return false;
    }
    let start = last_segment_start(path);
    is_allowed_at(path, start, path.unicode_len())
}

/// The saved buttons among the first `n` (label and path) whose file is
/// playable, in their order; `exists[i]` tells whether the file of the
/// `i`-th is on disk.
pub open spec fn playable_prefix(entries: Seq<(String, String)>, exists: Seq<bool>, n: int) -> Seq<
    (String, String),
>
    decreases n,
{
    if n <= 0 {
        Seq::empty()
    } else if playable(entries[n - 1].1@, exists[n - 1]) {
        playable_prefix(entries, exists, n - 1).push(entries[n - 1])
    } else {
        playable_prefix(entries, exists, n - 1)
    }
}

/// Keeps, in order, the saved buttons whose sound file is playable, so that
/// a file moved or renamed since the save is not offered for playback.
pub fn playable_sounds(entries: &Vec<(String, String)>, exists: &Vec<bool>) -> (r: Vec<
    (String, String),
>)
    requires
        entries@.len() == exists@.len(),
    ensures
        r@ == playable_prefix(entries@, exists@, entries@.len() as int),
{
    let mut r: Vec<(String, String)> = Vec::new();
    let mut i: usize = 0;
    while i < entries.len()
        invariant
            i <= entries@.len(),
            entries@.len() == exists@.len(),
            r@ == playable_prefix(entries@, exists@, i as int),
        decreases entries@.len() - i,
    {
        let (name, path) = &entries[i];
        if check_filetype(path.as_str(), exists[i]) {
            r.push((name.clone(), path.clone()));
        }
        i = i + 1;
    }
    r
}

/// What the dialog that adds a button holds between messages.
#[derive(Debug, Clone)]
pub struct AddView {
    pub is_being_added: bool,
    /// Whether the path typed so far is playable, so the button can be added.
    pub allow_confirm: bool,
    pub temp_path: String,
    pub temp_name: String,
}

/// A request to the dialog.
#[derive(Debug, Clone)]
pub enum AddViewMessage {
    CancelButtonPressed,
    /// A path was typed that is playable.
    PathOk(String),
    /// A path was typed that is not playable.
    PathNotOk(String),
    NameChange(String),
    /// Confirms a sound and a label; the flag tells whether the path is playable.
    ButtonAdded(Sound, String, bool),
    /// A file was dropped on the window; `exists` tells whether it is on disk.
    FileDropped { path: String, exists: bool },
    AddPressed,
}

impl Default for AddView {
    /// A closed, empty dialog.
    fn default() -> (r: AddView)
        ensures
            r.is_closed(),
    {
        AddView {
            is_being_added: false,
            allow_confirm: false,
            temp_path: String::new(),
            temp_name: String::new(),
        }
    }
}

impl AddView {
    /// The dialog is closed and holds nothing.
    pub open spec fn is_closed(&self) -> bool {
        &&& !self.is_being_added
        &&& !self.allow_confirm
        &&& self.temp_path@ == Seq::<char>::empty()
        &&& self.temp_name@ == Seq::<char>::empty()
    }

    fn close(&mut self)
        ensures
            final(self).is_closed(),
    {
        self.temp_path = String::new();
        self.temp_name = String::new();
        self.allow_confirm = false;
        self.is_being_added = false;
    }

    /// Handles a request to the dialog. A confirmed, playable sound closes
    /// the dialog and is handed on as a new button; an unplayable one changes
    /// nothing.
    pub fn update(&mut self, msg: AddViewMessage) -> (r: Option<ButtonMessage>)
        ensures
            match msg {
                AddViewMessage::ButtonAdded(sound, name, ok) => if ok {
                    &&& final(self).is_closed()
                    &&& r == Some(ButtonMessage::ButtonAdded(sound, name))
                } else {
                    &&& *final(self) == *old(self)
                    &&& r is None
                },
                AddViewMessage::PathOk(val) => {
                    &&& *final(self) == (AddView { temp_path: val, allow_confirm: true, ..*old(self) })
                    &&& r is None
                },
                AddViewMessage::PathNotOk(val) => {
                    &&& *final(self) == (AddView { temp_path: val, allow_confirm: false, ..*old(self) })
                    &&& r is None
                },
                AddViewMessage::NameChange(name) => {
                    &&& *final(self) == (AddView { temp_name: name, ..*old(self) })
                    &&& r is None
                },
                AddViewMessage::CancelButtonPressed => {
                    &&& final(self).is_closed()
                    &&& r is None
                },
                AddViewMessage::AddPressed => {
                    &&& *final(self) == (AddView { is_being_added: true, ..*old(self) })
                    &&& r is None
                },
                AddViewMessage::FileDropped { path, exists } => {
                    &&& *final(self) == (AddView {
                        temp_path: path,
                        allow_confirm: playable(path@, exists),
                        is_being_added: true,
                        ..*old(self)
                    })
                    &&& r is None
                },
            },
    {
        match msg {
            AddViewMessage::ButtonAdded(sound, name, ok) => {
                if ok {
                    self.close();
                    Some(ButtonMessage::ButtonAdded(sound, name))
                } else {
                    None
                }
            },
            AddViewMessage::PathOk(val) => {
                self.temp_path = val;
                self.allow_confirm = true;
                None
            },
            AddViewMessage::PathNotOk(val) => {
                self.temp_path = val;
                self.allow_confirm = false;
                None
            },
            AddViewMessage::NameChange(name) => {
                self.temp_name = name;
                None
            },
            AddViewMessage::CancelButtonPressed => {
                self.close();
                None
            },
            AddViewMessage::AddPressed => {
                self.is_being_added = true;
                None
            },
            AddViewMessage::FileDropped { path, exists } => {
                self.allow_confirm = check_filetype(path.as_str(), exists);
                self.temp_path = path;
                self.is_being_added = true;
                None
            },
        }
    }
}

} // verus!
