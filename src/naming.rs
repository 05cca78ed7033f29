//! Names of finished recordings: where they are stored, the fresh names that
//! a stop gives them, and the notice that announces one.
use vstd::prelude::*;
use vstd::string::StringExecFns;

verus! {

/// The path of the recording called `name`: `records/<name>.wav`.
pub open spec fn record_path_of(name: Seq<char>) -> Seq<char> {
    "records/"@ + name + ".wav"@
}

/// The notice that tells a requester that the recording `name` is ready.
pub open spec fn ready_notice_of(name: Seq<char>) -> Seq<char> {
    "Your recording `"@ + name + "` is ready. Rename it with `rename "@ + name + " new_name`."@
}

/// A lower-case hexadecimal digit.
pub open spec fn is_lower_hex(c: char) -> bool {
    ('0' <= c && c <= '9') || ('a' <= c && c <= 'f')
}

/// A name as a fresh recording gets it: 32 lower-case hexadecimal digits.
pub open spec fn is_generated_name(s: Seq<char>) -> bool {
    &&& s.len() == 32
    &&& forall|i: int| 0 <= i < s.len() ==> is_lower_hex(#[trigger] s[i])
}

/// The name of the recording stored in the file `file`: the file name
/// without its `.wav` ending; `None` for a file of another kind.
pub open spec fn stem_of(file: Seq<char>) -> Option<Seq<char>> {
    if file.len() >= 4 && file.subrange(file.len() - 4, file.len() as int) == ".wav"@ {
        Some(file.subrange(0, file.len() - 4))
    } else {
        None
    }
}

/// The names of the recordings among the files `files`, in their order.
pub open spec fn stems(files: Seq<Seq<char>>) -> Seq<Seq<char>>
    decreases files.len(),
{
    if files.len() == 0 {
        Seq::empty()
    } else {
        match stem_of(files.last()) {
            Some(n) => stems(files.drop_last()).push(n),
            None => stems(files.drop_last()),
        }
    }
}

/// The lines `lines` joined by line breaks.
pub open spec fn joined_lines(lines: Seq<Seq<char>>) -> Seq<char>
    decreases lines.len(),
{
    if lines.len() == 0 {
        Seq::empty()
    } else if lines.len() == 1 {
        lines[0]
    } else {
        joined_lines(lines.drop_last()) + "\n"@ + lines.last()
    }
}

/// Whether `file` ends in `.wav`.
fn is_wave_file(file: &str) -> (r: bool)
    ensures
        r == stem_of(file@) is Some,
{
    proof {
        reveal_strlit(".wav");
    }
    let n = file.unicode_len();
    if n < 4 {
        return false;
    }
    let c0 = file.get_char(n - 4);
    let c1 = file.get_char(n - 3);
    let c2 = file.get_char(n - 2);
    let c3 = file.get_char(n - 1);
    let r = c0 == '.' && c1 == 'w' && c2 == 'a' && c3 == 'v';
    let ghost sub = file@.subrange(n - 4, n as int);
    assert(sub[0] == c0 && sub[1] == c1 && sub[2] == c2 && sub[3] == c3);
    if r {
        assert(sub =~= ".wav"@);
    } else {
        assert(sub != ".wav"@);
    }
    r
}

/// The listing of the recordings among the files named `files`: each `.wav`
/// file's name without the ending, one per line, in the order given.
pub fn record_listing(files: &Vec<String>) -> (r: String)
    ensures
        r@ == joined_lines(stems(files@.map_values(|f: String| f@))),
{
    let ghost all = files@.map_values(|f: String| f@);
    let mut out = String::new();
    let mut any = false;
    let mut i: usize = 0;
    while i < files.len()
        invariant
            i <= files.len(),
            all == files@.map_values(|f: String| f@),
            out@ == joined_lines(stems(all.subrange(0, i as int))),
            any == (stems(all.subrange(0, i as int)).len() > 0),
        decreases files.len() - i,
    {
        let f = files[i].as_str();
        assert(all.subrange(0, i + 1).drop_last() =~= all.subrange(0, i as int));
        assert(all.subrange(0, i + 1).last() == f@);
        if is_wave_file(f) {
            let n = f.unicode_len();
            let stem = f.substring_char(0, n - 4);
            let ghost before = stems(all.subrange(0, i as int));
            assert(stems(all.subrange(0, i + 1)) == before.push(stem@));
            if any {
                out.append("\n");
            }
            out.append(stem);
            assert(before.push(stem@).drop_last() =~= before);
            any = true;
        }
        i += 1;
    }
    assert(all.subrange(0, files.len() as int) =~= all);
    out
}

/// The path that the recording called `name` is stored at.
pub fn record_path(name: &str) -> (r: String)
    ensures
        r@ == record_path_of(name@),
{
    let mut p = String::from_str("records/");
    p.append(name);
    p.append(".wav");
    p
}

/// The notice that the recording called `name` is ready to be renamed.
pub fn ready_notice(name: &str) -> (r: String)
    ensures
        r@ == ready_notice_of(name@),
{
    let mut m = String::from_str("Your recording `");
    m.append(name);
    m.append("` is ready. Rename it with `rename ");
    m.append(name);
    m.append(" new_name`.");
    m
}

/// Relies on uuid::Uuid::new_v4 (random bytes with the version and variant
/// bits set) and its simple form (`to_simple`), which writes the 16 bytes as
/// 32 lower-case hexadecimal digits.
#[verifier::external_body]
pub(crate) fn fresh_name() -> (r: String)
    ensures
        is_generated_name(r@),
{
    uuid::Uuid::new_v4().to_simple().to_string()
}

} // verus!
