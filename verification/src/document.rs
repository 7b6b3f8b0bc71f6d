//! Documents: a rope of text under a file name.

use crate::buffer::{
    line_count, rope_insert, rope_len_chars, rope_len_lines, rope_new, rope_remove, rope_text,
};
use ropey::Rope;
use vstd::prelude::*;
use vstd::string::*;

verus! {

/// The extension of a file name that has none of its own.
pub const DEFAULT_EXT: &'static str = ".txt";

/// The index of the first `.` in a name, or the length of the name where
/// it holds none.
pub open spec fn dot_position(name: Seq<char>) -> int
    decreases name.len(),
{
    if name.len() == 0 {
        0
    } else if name[0] == '.' {
        0
    } else {
        1 + dot_position(name.skip(1))
    }
}

/// The two parts of a file name: what stands before the first `.`, and the
/// extension from that `.` on. A name without a `.` gets the default
/// extension.
pub open spec fn file_name_parts(name: Seq<char>) -> (Seq<char>, Seq<char>) {
    let at = dot_position(name);
    if at < name.len() {
        (name.take(at), name.skip(at))
    } else {
        (name, DEFAULT_EXT@)
    }
}

proof fn lemma_dot_position_push(name: Seq<char>, last: char)
    ensures
        0 <= dot_position(name) <= name.len(),
        dot_position(name.push(last)) == if dot_position(name) < name.len() {
            dot_position(name)
        } else if last == '.' {
            name.len() as int
        } else {
            name.len() as int + 1
        },
    decreases name.len(),
{
    let grown = name.push(last);
    if name.len() == 0 {
        assert(dot_position(grown.skip(1)) == 0);
    } else {
        assert(grown.skip(1) == name.skip(1).push(last));
        lemma_dot_position_push(name.skip(1), last);
    }
}

proof fn lemma_dot_position_in_prefix(name: Seq<char>, len: int)
    requires
        0 <= len <= name.len(),
        dot_position(name.take(len)) < len,
    ensures
        dot_position(name) == dot_position(name.take(len)),
    decreases name.len() - len,
{
    if len < name.len() {
        assert(name.take(len + 1) == name.take(len).push(name[len]));
        lemma_dot_position_push(name.take(len), name[len]);
        lemma_dot_position_in_prefix(name, len + 1);
    } else {
        assert(name.take(len) == name);
    }
}

/// What every kind of document shares.
pub trait Doc {
    /// Splits a file name into what stands before its first `.` and its
    /// extension.
    fn parse_file_name(name: &str) -> (parts: (String, String))
        ensures
            parts.0@ == file_name_parts(name@).0,
            parts.1@ == file_name_parts(name@).1,
    {
        let len = name.unicode_len();
        let mut at: usize = 0;
        while at < len && name.get_char(at) != '.'
            invariant
                len == name@.len(),
                at <= len,
                dot_position(name@.take(at as int)) == at,
            decreases len - at,
        {
            proof {
                assert(name@.take(at + 1) == name@.take(at as int).push(name@[at as int]));
                lemma_dot_position_push(name@.take(at as int), name@[at as int]);
            }
            at += 1;
        }
        proof {
            if at < len {
                assert(name@.take(at + 1) == name@.take(at as int).push(name@[at as int]));
                lemma_dot_position_push(name@.take(at as int), name@[at as int]);
                lemma_dot_position_in_prefix(name@, at + 1);
            } else {
                assert(name@.take(at as int) == name@);
            }
        }
        if at < len {
            let stem = name.substring_char(0, at);
            let ext = name.substring_char(at, len);
            (String::from_str(stem), String::from_str(ext))
        } else {
            (String::from_str(name), String::from_str(DEFAULT_EXT))
        }
    }
}

/// What a document holds.
pub struct DocumentView {
    pub text: Seq<char>,
    pub file_name: Seq<char>,
    pub file_ext: Seq<char>,
    pub char_count: nat,
    pub line_count: nat,
}

/// A document that has not been saved yet.
#[derive(Debug)]
pub struct NewDocument {
    rope: Rope,
    file_name: String,
    file_ext: String,
    char_count: usize,
    line_count: usize,
}

impl Doc for NewDocument {

}

impl View for NewDocument {
    type V = DocumentView;

    closed spec fn view(&self) -> DocumentView {
        DocumentView {
            text: rope_text(self.rope),
            file_name: self.file_name@,
            file_ext: self.file_ext@,
            char_count: self.char_count as nat,
            line_count: self.line_count as nat,
        }
    }
}

impl NewDocument {
    /// An empty document named `new.txt`.
    pub fn new() -> (doc: Self)
        ensures
            doc@ == (DocumentView {
                text: Seq::empty(),
                file_name: "new.txt"@,
                file_ext: ".txt"@,
                char_count: 0,
                line_count: 0,
            }),
    {
        NewDocument {
            rope: rope_new(),
            file_name: String::from_str("new.txt"),
            file_ext: String::from_str(".txt"),
            char_count: 0,
            line_count: 0,
        }
    }

    /// The name under which the document is saved: the parts of `name`
    /// put together, or the document's own name and extension where no
    /// name is given.
    pub open spec fn saved_as(self, name: Option<Seq<char>>) -> (Seq<char>, Seq<char>) {
        match name {
            Some(name) => {
                let parts = file_name_parts(name);
                (parts.0 + parts.1, parts.1)
            },
            None => (self@.file_name + self@.file_ext, self@.file_ext),
        }
    }

    /// Turns the document into a saved one, under the given name or its
    /// own. Writing the file is left to the caller.
    pub fn save_file(self, name: Option<&str>) -> (doc: Document)
        ensures
            doc@ == (DocumentView {
                file_name: self.saved_as(
                    match name {
                        Some(n) => Some(n@),
                        None => None,
                    },
                ).0,
                file_ext: self.saved_as(
                    match name {
                        Some(n) => Some(n@),
                        None => None,
                    },
                ).1,
                ..self@
            }),
    {
        let fl_nm = match name {
            Some(name) => Self::parse_file_name(name),
            None => (self.file_name, self.file_ext),
        };
        let mut file_name = fl_nm.0;
        file_name.append(fl_nm.1.as_str());
        Document {
            rope: self.rope,
            file_name,
            file_ext: fl_nm.1,
            char_count: self.char_count,
            line_count: self.line_count,
        }
    }

    /// Brings the counts of characters and lines up to date.
    pub fn update_doc_info(&mut self)
        ensures
            final(self)@ == (DocumentView {
                char_count: old(self)@.text.len(),
                line_count: line_count(old(self)@.text),
                ..old(self)@
            }),
    {
        self.char_count = rope_len_chars(&self.rope);
        self.line_count = rope_len_lines(&self.rope);
    }

    /// Adds text at the end of the document.
    pub fn insert(&mut self, text: &str)
        ensures
            final(self)@ == (DocumentView { text: old(self)@.text + text@, ..old(self)@ }),
    {
        let ghost before = rope_text(self.rope);
        let end = rope_len_chars(&self.rope);
        rope_insert(&mut self.rope, end, text);
        proof {
            assert(before.take(end as int) == before);
        }
    }

    /// Takes the characters from `start` up to, not including, `end` out
    /// of the document.
    pub fn remove(&mut self, start: usize, end: usize)
        requires
            start <= end <= old(self)@.text.len(),
        ensures
            final(self)@ == (DocumentView {
                text: old(self)@.text.take(start as int) + old(self)@.text.skip(end as int),
                ..old(self)@
            }),
    {
        rope_remove(&mut self.rope, start, end);
    }

    /// The text of the document.
    pub fn rope(&self) -> (rope: &Rope)
        ensures
            rope_text(*rope) == self@.text,
    {
        &self.rope
    }
}

/// A document that belongs to a file.
#[derive(Debug)]
pub struct Document {
    file_name: String,
    file_ext: String,
    char_count: usize,
    line_count: usize,
    rope: Rope,
}

impl Doc for Document {

}

impl View for Document {
    type V = DocumentView;

    closed spec fn view(&self) -> DocumentView {
        DocumentView {
            text: rope_text(self.rope),
            file_name: self.file_name@,
            file_ext: self.file_ext@,
            char_count: self.char_count as nat,
            line_count: self.line_count as nat,
        }
    }
}

impl Document {
    /// The document of the file `name` whose content is `text`. Reading
    /// the file is left to the caller.
    pub fn load_file(name: &str, text: &str) -> (doc: Self)
        ensures
            doc@ == (DocumentView {
                text: text@,
                file_name: file_name_parts(name@).0 + file_name_parts(name@).1,
                file_ext: file_name_parts(name@).1,
                char_count: text@.len(),
                line_count: line_count(text@),
            }),
    {
        let fl_nm = Self::parse_file_name(name);
        let mut file_name = fl_nm.0;
        file_name.append(fl_nm.1.as_str());
        let mut rope = rope_new();
        rope_insert(&mut rope, 0, text);
        let char_count = rope_len_chars(&rope);
        let line_count = rope_len_lines(&rope);
        Document { file_name, file_ext: fl_nm.1, char_count, line_count, rope }
    }

    /// Brings the counts of characters and lines up to date.
    pub fn update_doc_info(&mut self)
        ensures
            final(self)@ == (DocumentView {
                char_count: old(self)@.text.len(),
                line_count: line_count(old(self)@.text),
                ..old(self)@
            }),
    {
        self.char_count = rope_len_chars(&self.rope);
        self.line_count = rope_len_lines(&self.rope);
    }

    /// Adds text at the end of the document.
    pub fn insert(&mut self, text: &str)
        ensures
            final(self)@ == (DocumentView { text: old(self)@.text + text@, ..old(self)@ }),
    {
        let ghost before = rope_text(self.rope);
        let end = rope_len_chars(&self.rope);
        rope_insert(&mut self.rope, end, text);
        proof {
            assert(before.take(end as int) == before);
        }
    }

    /// Takes the characters from `start` up to, not including, `end` out
    /// of the document.
    pub fn remove(&mut self, start: usize, end: usize)
        requires
            start <= end <= old(self)@.text.len(),
        ensures
            final(self)@ == (DocumentView {
                text: old(self)@.text.take(start as int) + old(self)@.text.skip(end as int),
                ..old(self)@
            }),
    {
        rope_remove(&mut self.rope, start, end);
    }

    /// The text of the document.
    pub fn rope(&self) -> (rope: &Rope)
        ensures
            rope_text(*rope) == self@.text,
    {
        &self.rope
    }

    /// The name of the document's file.
    pub fn file_name(&self) -> (name: &str)
        ensures
            name@ == self@.file_name,
    {
        self.file_name.as_str()
    }

    /// The extension of the document's file.
    pub fn file_ext(&self) -> (ext: &str)
        ensures
            ext@ == self@.file_ext,
    {
        self.file_ext.as_str()
    }

    /// The number of characters at the last count.
    pub fn char_count(&self) -> (count: usize)
        ensures
            count == self@.char_count,
    {
        self.char_count
    }

    /// The number of lines at the last count.
    pub fn line_count(&self) -> (count: usize)
        ensures
            count == self@.line_count,
    {
        self.line_count
    }
}

} // verus!
