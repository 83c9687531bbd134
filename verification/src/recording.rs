//! Video recording parts on disk: a part is written to
//! `<video dir>/<recording id>/<index>.mp4`, and the recording id and the part
//! index are read back from that path.

use vstd::prelude::*;

use crate::decimal::{format_i32, int_to_decimal, parse_i32, parse_i32_spec};
use crate::text::{chars_of, split_char, split_spec};

verus! {

/// The pieces between `/` that name something: empty pieces (from repeated or
/// trailing separators) and `.` pieces are dropped.
pub open spec fn named_parts(pieces: Seq<Seq<char>>) -> Seq<Seq<char>>
    decreases pieces.len(),
{
    if pieces.len() == 0 {
        Seq::<Seq<char>>::empty()
    } else {
        let prev = named_parts(pieces.drop_last());
        if pieces.last() == Seq::<char>::empty() || pieces.last() == seq!['.'] {
            prev
        } else {
            prev.push(pieces.last())
        }
    }
}

/// The component that a Unix path begins with, if any: `/` for an absolute path,
/// `.` for a relative path whose first piece is `.`.
pub open spec fn leading_component(s: Seq<char>) -> Seq<Seq<char>> {
    if s.len() > 0 && s[0] == '/' {
        seq![seq!['/']]
    } else if s.len() > 0 && s[0] == '.' && (s.len() == 1 || s[1] == '/') {
        seq![seq!['.']]
    } else {
        Seq::<Seq<char>>::empty()
    }
}

/// The components of the Unix path `s`, each as its text, in the order that
/// `Path::components` yields them.
pub open spec fn path_components_spec(s: Seq<char>) -> Seq<Seq<char>> {
    leading_component(s) + named_parts(split_spec(s, '/'))
}

/// The text of the recording id in `filename`: its next-to-last component.
pub open spec fn recording_id_spec(filename: Seq<char>) -> Seq<char> {
    let comps = path_components_spec(filename);
    comps[comps.len() - 2]
}

/// The text of the part index in `filename`: its last component up to the first `.`.
pub open spec fn recording_index_text(filename: Seq<char>) -> Seq<char> {
    let comps = path_components_spec(filename);
    split_spec(comps[comps.len() - 1], '.')[0]
}

/// The components of the Unix path `filename`, as text.
pub fn path_components(filename: &str) -> (res: Vec<String>)
    ensures
        res@.len() == path_components_spec(filename@).len(),
        forall|k: int|
            0 <= k < res@.len() ==> #[trigger] res@[k]@ == path_components_spec(filename@)[k],
{
    let cs = chars_of(filename);
    let ghost head = leading_component(filename@);
    let mut out: Vec<String> = Vec::new();
    if cs.len() > 0 && cs[0] == '/' {
        out.push("/".to_owned());
    } else if cs.len() > 0 && cs[0] == '.' && (cs.len() == 1 || cs[1] == '/') {
        out.push(".".to_owned());
    }
    proof {
        reveal_strlit("/");
        reveal_strlit(".");
        assert(out@.len() == head.len());
        assert(forall|k: int| 0 <= k < out@.len() ==> #[trigger] out@[k]@ == head[k]);
    }
    let pieces = split_char(filename, '/');
    let ghost ps = split_spec(filename@, '/');
    let n = pieces.len();
    assert(ps.take(0) =~= Seq::<Seq<char>>::empty());
    for i in 0..n
        invariant
            n == ps.len(),
            ps == split_spec(filename@, '/'),
            head == leading_component(filename@),
            pieces@.len() == ps.len(),
            forall|k: int| 0 <= k < pieces@.len() ==> #[trigger] pieces@[k]@ == ps[k],
            out@.len() == (head + named_parts(ps.take(i as int))).len(),
            forall|k: int|
                0 <= k < out@.len() ==> #[trigger] out@[k]@ == (head + named_parts(
                    ps.take(i as int),
                ))[k],
    {
        let ghost prev = named_parts(ps.take(i as int));
        assert(ps.take(i + 1).drop_last() =~= ps.take(i as int));
        assert(ps.take(i + 1).last() == ps[i as int]);
        let piece: &str = pieces[i].as_str();
        assert(piece@ == ps[i as int]);
        let len = piece.unicode_len();
        let skip = len == 0 || (len == 1 && piece.get_char(0) == '.');
        if len == 0 {
            assert(piece@ =~= Seq::<char>::empty());
        }
        if len == 1 && piece.get_char(0) == '.' {
            assert(piece@ =~= seq!['.']);
        }
        if !skip {
            assert(piece@ != Seq::<char>::empty());
            assert(piece@.len() != 1 || piece@[0] != '.');
            assert(piece@ != seq!['.']);
            out.push(piece.to_owned());
            assert(head + prev.push(piece@) =~= (head + prev).push(piece@));
        }
    }
    assert(ps.take(n as int) =~= ps);
    out
}

/// The recording id in the path of a recording part, such as
/// `66b3a3a0-30b5-41f2-9907-a335de57c921` in
/// `/home/printnanny/.local/share/printnanny/video/66b3a3a0-30b5-41f2-9907-a335de57c921/00025.mp4`:
/// the path's next-to-last component. The path must have at least two components.
pub fn parse_video_recording_id(filename: &str) -> (res: String)
    requires
        path_components_spec(filename@).len() >= 2,
    ensures
        res@ == recording_id_spec(filename@),
{
    let comps = path_components(filename);
    let n = comps.len();
    comps[n - 2].clone()
}

/// The part index in the path of a recording part, such as `25` for
/// `.../66b3a3a0-30b5-41f2-9907-a335de57c921/00025.mp4`: the text of the last
/// component up to its first `.`, read as an `i32`. The path must have a
/// component, and that text must read as an `i32`.
pub fn parse_video_recording_index(filename: &str) -> (res: i32)
    requires
        path_components_spec(filename@).len() >= 1,
        parse_i32_spec(recording_index_text(filename@)) is Ok,
    ensures
        parse_i32_spec(recording_index_text(filename@)) == Ok::<int, crate::decimal::IntErrorKind>(
            res as int,
        ),
{
    let comps = path_components(filename);
    let n = comps.len();
    let last: &str = comps[n - 1].as_str();
    let parts = split_char(last, '.');
    proof {
        crate::text::lemma_split_len(last@, '.');
    }
    match parse_i32(parts[0].as_str()) {
        Ok(v) => v,
        Err(e) => {
            proof {
                assert(false);
            }
            0
        },
    }
}

/// The subject pattern on which finished recording parts are announced.
pub const SUBJECT_PATTERN: &'static str = "pi.{pi_id}.event.camera.recording.part";

/// A recording part as it is first recorded: from the fragment the muxer opened.
pub struct NewVideoRecordingPart {
    /// `<recording id>-<index>`.
    pub id: String,
    pub buffer_index: i32,
    pub buffer_runningtime: i64,
    pub deleted: bool,
    pub file_name: String,
    pub video_recording_id: String,
    pub size: i64,
}

/// The id of the part at `filename`: `<recording id>-<index>`.
pub open spec fn part_id_spec(filename: Seq<char>) -> Seq<char> {
    recording_id_spec(filename) + "-"@ + int_to_decimal(
        parse_i32_spec(recording_index_text(filename))->Ok_0,
    )
}

impl NewVideoRecordingPart {
    /// The part written to `location`, `running_time` nanoseconds into the
    /// recording, of `size` bytes: its recording id and index come from the path,
    /// and it is not deleted. The path must name a recording part (as
    /// `parse_video_recording_id` and `parse_video_recording_index` require).
    pub fn from_fragment(location: &str, running_time: u64, size: i64) -> (row: NewVideoRecordingPart)
        requires
            path_components_spec(location@).len() >= 2,
            parse_i32_spec(recording_index_text(location@)) is Ok,
        ensures
            row.id@ == part_id_spec(location@),
            parse_i32_spec(recording_index_text(location@)) == Ok::<
                int,
                crate::decimal::IntErrorKind,
            >(row.buffer_index as int),
            row.buffer_runningtime == running_time as i64,
            !row.deleted,
            row.file_name@ == location@,
            row.video_recording_id@ == recording_id_spec(location@),
            row.size == size,
    {
        let video_recording_id = parse_video_recording_id(location);
        let index = parse_video_recording_index(location);
        let mut id = video_recording_id.clone();
        id.append("-");
        let idx = format_i32(index);
        id.append(idx.as_str());
        NewVideoRecordingPart {
            id,
            buffer_index: index,
            buffer_runningtime: running_time as i64,
            deleted: false,
            file_name: location.to_owned(),
            video_recording_id,
            size,
        }
    }
}

} // verus!
