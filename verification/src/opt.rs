//! The batch run's configuration record, the errors its path and id
//! arguments can raise, and the grammar of an id-list file.

use vstd::prelude::*;
use crate::emote_ext::{BttvId, SevenTvId};
use crate::text::{chars_of, is_lower_hex_char, split_lines, split_lines_exec};

verus! {

/// A directory argument could not be used.
#[derive(Debug, Clone)]
pub enum DirPathParseError {
    /// The directory was absent and could not be created.
    Create(String),
    /// The path exists but is no directory.
    InvalidType,
}

/// A file argument could not be used.
#[derive(Debug, Clone)]
pub enum FilePathParseError {
    /// The file's metadata could not be read.
    NoMetadata(String),
    /// The path exists but is no file.
    InvalidType,
}

/// An id list could not be read.
#[derive(Debug, Clone, Copy, PartialEq, Eq, Structural)]
pub enum IdsParseError {
    /// Some ids are invalid.
    IdInvalid,
    /// The id file could not be opened.
    FileNotFound,
    /// The id file holds invalid ids.
    FileContentInvalid,
}

/// The batch run's configuration: which emotes to convert and where the
/// per-step artifacts live.
#[derive(Debug)]
pub struct Opt {
    pub seven_tv_ids: Vec<SevenTvId>,
    pub bttv_ids: Vec<BttvId>,
    pub svg_names: Vec<String>,
    pub download_dir: String,
    pub raw_frames_dir: String,
    pub resized_frames_dir: String,
    pub out_static_dir: String,
    pub out_anim_dir: String,
    pub force: bool,
    pub dry_run: bool,
    pub download: bool,
}

/// The id an id line carries, the carriage return stripped.
pub open spec fn id_of_line(l: Seq<char>) -> Seq<char> {
    if l.len() > 0 && l.last() == '\r' {
        l.drop_last()
    } else {
        l
    }
}

/// A line carrying one emote id: exactly twenty-four lowercase
/// hexadecimal digits, with an optional trailing carriage return.
pub open spec fn is_id_line(l: Seq<char>) -> bool {
    &&& id_of_line(l).len() == 24
    &&& forall|i: int| 0 <= i < 24 ==> is_lower_hex_char(#[trigger] id_of_line(l)[i])
}

/// The ids of all id lines, in line order; other lines are skipped.
pub open spec fn id_lines_of(lines: Seq<Seq<char>>) -> Seq<Seq<char>>
    decreases lines.len(),
{
    if lines.len() == 0 {
        Seq::<Seq<char>>::empty()
    } else {
        let rest = id_lines_of(lines.drop_last());
        if is_id_line(lines.last()) {
            rest.push(id_of_line(lines.last()))
        } else {
            rest
        }
    }
}

/// Reads one line as an id: the line's first twenty-four characters when
/// it is an id line.
fn line_id_parse(line: &Vec<char>) -> (r: Option<String>)
    ensures
        match r {
            Option::Some(id) => is_id_line(line@) && id@ == id_of_line(line@),
            Option::None => !is_id_line(line@),
        },
{
    let ghost c = id_of_line(line@);
    let n = if line.len() > 0 && line[line.len() - 1] == '\r' {
        line.len() - 1
    } else {
        line.len()
    };
    proof {
        assert(c =~= line@.take(n as int));
    }
    if n != 24 {
        return None;
    }
    let mut s = String::new();
    let mut i: usize = 0;
    while i < n
        invariant
            i <= n,
            n == 24,
            n <= line@.len(),
            c == id_of_line(line@),
            c == line@.take(n as int),
            forall|j: int| 0 <= j < i ==> is_lower_hex_char(#[trigger] c[j]),
            s@ == c.take(i as int),
        decreases n - i,
    {
        let ch = line[i];
        if !crate::text::check_lower_hex_char(ch) {
            proof {
                assert(id_of_line(line@)[i as int] == line@.take(n as int)[i as int]);
                assert(line@.take(n as int)[i as int] == line@[i as int]);
                assert(!is_id_line(line@));
            }
            return None;
        }
        crate::text::append_lower_hex_char(&mut s, ch);
        proof {
            assert(s@ =~= c.take(i + 1));
        }
        i = i + 1;
    }
    proof {
        assert(c.take(n as int) =~= c);
    }
    Some(s)
}

/// Extracts the emote ids from newline-separated text: every line of
/// twenty-four lowercase hexadecimal digits counts, tolerating a trailing
/// carriage return; every other line is skipped.
pub fn parse_id_lines(text: &str) -> (r: Vec<String>)
    ensures
        r@.map_values(|s: String| s@) == id_lines_of(split_lines(text@)),
{
    let chars = chars_of(text);
    let lines = split_lines_exec(&chars);
    let ghost ls = split_lines(text@);
    let mut ids: Vec<String> = Vec::new();
    let mut i: usize = 0;
    proof {
        assert(ids@.map_values(|s: String| s@) =~= id_lines_of(ls.take(0)));
    }
    while i < lines.len()
        invariant
            i <= lines@.len(),
            ls == split_lines(text@),
            lines@.map_values(|l: Vec<char>| l@) == ls,
            ids@.map_values(|s: String| s@) == id_lines_of(ls.take(i as int)),
        decreases lines@.len() - i,
    {
        proof {
            assert(ls.take(i + 1).drop_last() =~= ls.take(i as int));
            assert(ls.take(i + 1).last() == ls[i as int]);
            assert(ls[i as int] == lines@[i as int]@);
        }
        match line_id_parse(&lines[i]) {
            Option::Some(id) => {
                ids.push(id);
                proof {
                    assert(ids@.map_values(|s: String| s@) =~= id_lines_of(ls.take(i + 1)));
                }
            },
            Option::None => {
                proof {
                    assert(id_lines_of(ls.take(i + 1)) =~= id_lines_of(ls.take(i as int)));
                }
            },
        }
        i = i + 1;
    }
    proof {
        assert(ls.take(ls.len() as int) =~= ls);
    }
    ids
}

} // verus!
