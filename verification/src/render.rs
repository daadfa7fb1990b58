//! Exact text of everything the tool prints per task: the per-container
//! image and tag report, and the ready-to-run remote-execute command block.
//!
//! Each `spec_*` function gives the text as a sequence of characters; the
//! `render_*` functions build the same text and are proved to match.

use vstd::prelude::*;
use crate::model::{Container, TaskDesc};
use crate::tag::{extract_image_tag, spec_extract_tag};

verus! {

/// The two tag lines of a container report: the extracted tag when the image
/// reference has one, else the placeholder line. Both end with a blank line.
pub open spec fn spec_tag_lines(image: Seq<char>) -> Seq<char> {
    match spec_extract_tag(image) {
        Option::Some(t) => "Running image Tag: "@ + t + "\n\n"@,
        Option::None => "Image Tag: Not found or using 'latest'\n\n"@,
    }
}

/// The full report for one matching container: separator, image line, tag
/// lines.
pub open spec fn spec_container_report(image: Seq<char>) -> Seq<char> {
    "---------------\n"@ + "Container Image: "@ + image + "\n"@ + spec_tag_lines(image)
}

/// What one container contributes to the output: its report when its name
/// matches the requested container name and it has an image, else nothing.
pub open spec fn spec_container_output(c: Container, wanted: Seq<char>) -> Seq<char> {
    if c.name is Some && c.name->0@ == wanted && c.image is Some {
        spec_container_report(c.image->0@)
    } else {
        Seq::empty()
    }
}

/// The concatenated reports of a task's containers, in order.
pub open spec fn spec_containers_output(cs: Seq<Container>, wanted: Seq<char>) -> Seq<char>
    decreases cs.len(),
{
    if cs.len() == 0 {
        Seq::empty()
    } else {
        spec_containers_output(cs.drop_last(), wanted) + spec_container_output(cs.last(), wanted)
    }
}

/// The concatenated reports of all task records, in order.
pub open spec fn spec_tasks_output(ts: Seq<TaskDesc>, wanted: Seq<char>) -> Seq<char>
    decreases ts.len(),
{
    if ts.len() == 0 {
        Seq::empty()
    } else {
        spec_tasks_output(ts.drop_last(), wanted) + spec_containers_output(
            ts.last().containers@,
            wanted,
        )
    }
}

/// The remote-execute command for one task.
pub open spec fn spec_command(
    region: Seq<char>,
    cluster: Seq<char>,
    arn: Seq<char>,
    container: Seq<char>,
) -> Seq<char> {
    "aws ecs execute-command \\\n    --region "@ + region + " \\\n    --cluster "@ + cluster
        + " \\\n    --task "@ + arn + " \\\n    --container "@ + container
        + " \\\n    --command \"/bin/bash\" \\\n    --interactive"@
}

/// Everything printed for one task identifier: the container reports of its
/// task records, then a blank line, the command block, and a closing blank
/// line.
pub open spec fn spec_task_block(
    region: Seq<char>,
    cluster: Seq<char>,
    container: Seq<char>,
    arn: Seq<char>,
    ts: Seq<TaskDesc>,
) -> Seq<char> {
    spec_tasks_output(ts, container) + "\n"@ + spec_command(region, cluster, arn, container)
        + "\n\n"@
}

/// Character-for-character equality of two string slices.
fn str_eq(a: &str, b: &str) -> (r: bool)
    ensures
        r == (a@ == b@),
{
    let la = a.unicode_len();
    let lb = b.unicode_len();
    if la != lb {
        return false;
    }
    let mut i: usize = 0;
    while i < la
        invariant
            i <= la,
            la == a@.len(),
            la == b@.len(),
            forall|j: int| 0 <= j < i ==> a@[j] == b@[j],
        decreases la - i,
    {
        if a.get_char(i) != b.get_char(i) {
            return false;
        }
        i += 1;
    }
    proof {
        assert(a@ =~= b@);
    }
    true
}

/// Append the tag lines for `image` to `out`.
fn push_tag_lines(out: &mut String, image: &str)
    ensures
        final(out)@ == old(out)@ + spec_tag_lines(image@),
{
    match extract_image_tag(image) {
        Option::Some(t) => {
            out.append("Running image Tag: ");
            out.append(t);
            out.append("\n\n");
        },
        Option::None => {
            out.append("Image Tag: Not found or using 'latest'\n\n");
        },
    }
    proof {
        assert(out@ =~= old(out)@ + spec_tag_lines(image@));
    }
}

/// Build the concatenated container reports of one task's container list.
pub fn render_containers(cs: &Vec<Container>, wanted: &str) -> (out: String)
    ensures
        out@ == spec_containers_output(cs@, wanted@),
{
    let mut out = String::new();
    let mut i: usize = 0;
    while i < cs.len()
        invariant
            i <= cs.len(),
            out@ == spec_containers_output(cs@.take(i as int), wanted@),
        decreases cs.len() - i,
    {
        let ghost prev = out@;
        let c = &cs[i];
        match (&c.name, &c.image) {
            (Option::Some(n), Option::Some(img)) => {
                if str_eq(n.as_str(), wanted) {
                    out.append("---------------\n");
                    out.append("Container Image: ");
                    out.append(img.as_str());
                    out.append("\n");
                    push_tag_lines(&mut out, img.as_str());
                    proof {
                        assert(out@ =~= prev + spec_container_output(cs@[i as int], wanted@));
                    }
                }
            },
            _ => {},
        }
        proof {
            assert(cs@.take(i + 1).drop_last() =~= cs@.take(i as int));
            assert(cs@.take(i + 1).last() == cs@[i as int]);
            if !(cs@[i as int].name is Some && cs@[i as int].name->0@ == wanted@
                && cs@[i as int].image is Some) {
                assert(out@ =~= prev + spec_container_output(cs@[i as int], wanted@));
            }
        }
        i += 1;
    }
    proof {
        assert(cs@.take(cs.len() as int) =~= cs@);
    }
    out
}

/// Build the concatenated container reports of all task records.
pub fn render_tasks(ts: &Vec<TaskDesc>, wanted: &str) -> (out: String)
    ensures
        out@ == spec_tasks_output(ts@, wanted@),
{
    let mut out = String::new();
    let mut i: usize = 0;
    while i < ts.len()
        invariant
            i <= ts.len(),
            out@ == spec_tasks_output(ts@.take(i as int), wanted@),
        decreases ts.len() - i,
    {
        let ghost prev = out@;
        let part = render_containers(&ts[i].containers, wanted);
        out.append(part.as_str());
        proof {
            assert(ts@.take(i + 1).drop_last() =~= ts@.take(i as int));
            assert(ts@.take(i + 1).last() == ts@[i as int]);
        }
        i += 1;
    }
    proof {
        assert(ts@.take(ts.len() as int) =~= ts@);
    }
    out
}

/// Build the remote-execute command for one task.
pub fn render_command(region: &str, cluster: &str, arn: &str, container: &str) -> (out: String)
    ensures
        out@ == spec_command(region@, cluster@, arn@, container@),
{
    let mut out = String::new();
    out.append("aws ecs execute-command \\\n    --region ");
    out.append(region);
    out.append(" \\\n    --cluster ");
    out.append(cluster);
    out.append(" \\\n    --task ");
    out.append(arn);
    out.append(" \\\n    --container ");
    out.append(container);
    out.append(" \\\n    --command \"/bin/bash\" \\\n    --interactive");
    proof {
        assert(out@ =~= spec_command(region@, cluster@, arn@, container@));
    }
    out
}

/// Build everything the tool prints for one task identifier.
pub fn render_task_block(
    region: &str,
    cluster: &str,
    container: &str,
    arn: &str,
    ts: &Vec<TaskDesc>,
) -> (out: String)
    ensures
        out@ == spec_task_block(region@, cluster@, container@, arn@, ts@),
{
    let mut out = render_tasks(ts, container);
    out.append("\n");
    let cmd = render_command(region, cluster, arn, container);
    out.append(cmd.as_str());
    out.append("\n\n");
    proof {
        assert(out@ =~= spec_task_block(region@, cluster@, container@, arn@, ts@));
    }
    out
}

} // verus!
