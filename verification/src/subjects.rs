//! NATS subjects of a Pi: the templates with their `{pi_id}` placeholder, and the
//! concrete subjects built for one Pi id.

use vstd::prelude::*;

use crate::decimal::{format_i32, int_to_decimal};
use crate::text::replacen_spec;

verus! {

pub const SUBJECT_COMMAND_BOOT: &'static str = "pi.{pi_id}.command.boot";

pub const SUBJECT_STATUS_BOOT: &'static str = "pi.{pi_id}.status.boot";

pub const SUBJECT_COMMAND_CAM: &'static str = "pi.{pi_id}.command.cam";

pub const SUBJECT_STATUS_CAM: &'static str = "pi.{pi_id}.status.cam";

pub const SUBJECT_COMMAND_SWUPDATE: &'static str = "pi.{pi_id}.command.swupdate";

pub const SUBJECT_STATUS_SWUPDATE: &'static str = "pi.{pi_id}.status.swupdate";

pub const SUBJECT_OCTOPRINT_SERVER: &'static str = "pi.{pi_id}.octoprint.server";

pub const SUBJECT_OCTOPRINT_PRINT_JOB: &'static str = "pi.{pi_id}.octoprint.print_job";

pub const SUBJECT_OCTOPRINT_PRINTER_STATUS: &'static str = "pi.{pi_id}.octoprint.printer";

pub const SUBJECT_OCTOPRINT_CLIENT: &'static str = "pi.{pi_id}.octoprint.client";

pub const SUBJECT_REPETIER: &'static str = "pi.{pi_id}.repetier";

pub const SUBJECT_MOONRAKER: &'static str = "pi.{pi_id}.moonraker";

/// The placeholder that subject templates hold in place of a Pi id.
pub const PI_ID_PLACEHOLDER: &'static str = "{pi_id}";

/// The subject `pi.<pi_id>.<suffix>`.
pub open spec fn pi_subject_spec(pi_id: int, suffix: Seq<char>) -> Seq<char> {
    "pi."@ + int_to_decimal(pi_id) + "."@ + suffix
}

/// Filling the placeholder of a template `pi.{pi_id}.<suffix>` with `id` gives
/// `pi.<id>.<suffix>`: the placeholder first occurs right after `pi.`.
pub proof fn lemma_fill_template(suffix: Seq<char>, id: Seq<char>)
    ensures
        replacen_spec("pi.{pi_id}."@ + suffix, PI_ID_PLACEHOLDER@, id, 1) == "pi."@ + id + "."@
            + suffix,
{
    reveal_strlit("pi.{pi_id}.");
    reveal_strlit("{pi_id}");
    reveal_strlit("pi.");
    reveal_strlit(".");
    let p = "{pi_id}"@;
    let s0 = "pi.{pi_id}."@ + suffix;
    let s1 = s0.drop_first();
    let s2 = s1.drop_first();
    let s3 = s2.drop_first();
    assert(s0.take(7)[0] == 'p');
    assert(s1.take(7)[0] == 'i');
    assert(s2.take(7)[0] == '.');
    assert(s0.take(7) != p);
    assert(s1.take(7) != p);
    assert(s2.take(7) != p);
    assert(s3.take(7) =~= p);
    assert(s3.skip(7) =~= "."@ + suffix);
    assert(replacen_spec(s3, p, id, 1) == id + replacen_spec(s3.skip(7), p, id, 0));
    assert(replacen_spec(s2, p, id, 1) == seq![s2[0]] + replacen_spec(s3, p, id, 1));
    assert(replacen_spec(s1, p, id, 1) == seq![s1[0]] + replacen_spec(s2, p, id, 1));
    assert(replacen_spec(s0, p, id, 1) == seq![s0[0]] + replacen_spec(s1, p, id, 1));
    assert(seq![s0[0]] + (seq![s1[0]] + (seq![s2[0]] + (id + ("."@ + suffix)))) =~= "pi."@ + id
        + "."@ + suffix);
}

/// The subject `pi.<pi_id>.<suffix>` of one Pi.
pub fn pi_subject(pi_id: i32, suffix: &str) -> (res: String)
    ensures
        res@ == pi_subject_spec(pi_id as int, suffix@),
{
    let mut s = String::new();
    s.append("pi.");
    let id = format_i32(pi_id);
    s.append(id.as_str());
    s.append(".");
    s.append(suffix);
    s
}

/// The subject under which every command for the Pi `pi_id` arrives, whatever
/// follows `command`: `pi.<pi_id>.command.>` (`pi.3.command.>` for Pi 3).
pub fn to_nats_command_subscribe_subject(pi_id: &i32) -> (res: String)
    ensures
        res@ == pi_subject_spec(*pi_id as int, "command.>"@),
{
    pi_subject(*pi_id, "command.>")
}

} // verus!
