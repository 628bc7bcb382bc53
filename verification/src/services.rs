//! Reading service actions and distro names sent by the UI.

use vstd::prelude::*;
use crate::text::{contains_seq, contains_str, occurs_at, str_eq};

verus! {

/// An action on a system service.
#[derive(Clone, Copy, Debug, PartialEq, Eq, Structural)]
pub enum ServiceActionKind {
    Start,
    Stop,
    Restart,
    Pause,
    Resume,
}

/// The action the UI names `action`; other names are ignored.
pub open spec fn service_action_of(action: Seq<char>) -> Option<ServiceActionKind> {
    if action == "Start"@ {
        Some(ServiceActionKind::Start)
    } else if action == "Stop"@ {
        Some(ServiceActionKind::Stop)
    } else if action == "Restart"@ {
        Some(ServiceActionKind::Restart)
    } else if action == "Pause"@ {
        Some(ServiceActionKind::Pause)
    } else if action == "Resume"@ {
        Some(ServiceActionKind::Resume)
    } else {
        None
    }
}

/// The service action named `action` by the UI.
pub fn service_action_kind(action: &str) -> (r: Option<ServiceActionKind>)
    ensures
        r == service_action_of(action@),
{
    if str_eq(action, "Start") {
        Some(ServiceActionKind::Start)
    } else if str_eq(action, "Stop") {
        Some(ServiceActionKind::Stop)
    } else if str_eq(action, "Restart") {
        Some(ServiceActionKind::Restart)
    } else if str_eq(action, "Pause") {
        Some(ServiceActionKind::Pause)
    } else if str_eq(action, "Resume") {
        Some(ServiceActionKind::Resume)
    } else {
        None
    }
}

/// The icon shown for a WSL distribution.
#[derive(Clone, Copy, Debug, PartialEq, Eq, Structural)]
pub enum DistroIcon {
    Ubuntu,
    Docker,
    Linux,
}

/// What `str::to_lowercase` makes of a string.
pub uninterp spec fn unicode_lowercase(s: Seq<char>) -> Seq<char>;

/// Calls `str::to_lowercase`. Claimed: the result depends on the characters
/// of `s` alone (it is `unicode_lowercase` of them); the Unicode case
/// mapping itself is not stated.
#[verifier::external_body]
fn to_lowercase(s: &str) -> (r: String)
    ensures
        r@ == unicode_lowercase(s@),
{
    s.to_lowercase()
}

/// The icon of a distribution whose lower-cased name is `lower`: Ubuntu when
/// it mentions `ubuntu`, else Docker when it mentions `docker`, else the
/// generic Linux icon.
pub open spec fn distro_icon_of(lower: Seq<char>) -> DistroIcon {
    if contains_seq(lower, "ubuntu"@) {
        DistroIcon::Ubuntu
    } else if contains_seq(lower, "docker"@) {
        DistroIcon::Docker
    } else {
        DistroIcon::Linux
    }
}

/// Icon of the distribution named `lower`, already lower-cased.
pub fn distro_icon_for_lowercase(lower: &str) -> (r: DistroIcon)
    ensures
        r == distro_icon_of(lower@),
{
    if contains_str(lower, "ubuntu") {
        DistroIcon::Ubuntu
    } else if contains_str(lower, "docker") {
        DistroIcon::Docker
    } else {
        DistroIcon::Linux
    }
}

/// Icon of the distribution named `name`.
pub fn distro_icon(name: &str) -> (r: DistroIcon)
    ensures
        r == distro_icon_of(unicode_lowercase(name@)),
{
    let lower = to_lowercase(name);
    distro_icon_for_lowercase(lower.as_str())
}

/// `p` occurs in `s` as a run of consecutive characters.
pub open spec fn has_substring(s: Seq<char>, p: Seq<char>) -> bool {
    exists|i: int| 0 <= i && i + p.len() <= s.len() && #[trigger] s.subrange(i, i + p.len()) == p
}

/// A distribution whose lower-cased name mentions `ubuntu` anywhere gets the
/// Ubuntu icon; otherwise one mentioning `docker` anywhere gets the Docker
/// icon; any other gets the generic Linux icon.
pub proof fn law_distro_icon_by_mention(lower: Seq<char>)
    ensures
        has_substring(lower, "ubuntu"@) ==> distro_icon_of(lower) == DistroIcon::Ubuntu,
        !has_substring(lower, "ubuntu"@) && has_substring(lower, "docker"@) ==> distro_icon_of(lower)
            == DistroIcon::Docker,
        !has_substring(lower, "ubuntu"@) && !has_substring(lower, "docker"@) ==> distro_icon_of(lower)
            == DistroIcon::Linux,
{
    assert(has_substring(lower, "ubuntu"@) <==> contains_seq(lower, "ubuntu"@)) by {
        if has_substring(lower, "ubuntu"@) {
            let i = choose|i: int| 0 <= i && i + "ubuntu"@.len() <= lower.len() && #[trigger] lower.subrange(
                i,
                i + "ubuntu"@.len(),
            ) == "ubuntu"@;
            assert(occurs_at(lower, i, "ubuntu"@));
        }
        if contains_seq(lower, "ubuntu"@) {
            let i = choose|i: int| occurs_at(lower, i, "ubuntu"@);
            assert(lower.subrange(i, i + "ubuntu"@.len()) == "ubuntu"@);
        }
    }
    assert(has_substring(lower, "docker"@) <==> contains_seq(lower, "docker"@)) by {
        if has_substring(lower, "docker"@) {
            let i = choose|i: int| 0 <= i && i + "docker"@.len() <= lower.len() && #[trigger] lower.subrange(
                i,
                i + "docker"@.len(),
            ) == "docker"@;
            assert(occurs_at(lower, i, "docker"@));
        }
        if contains_seq(lower, "docker"@) {
            let i = choose|i: int| occurs_at(lower, i, "docker"@);
            assert(lower.subrange(i, i + "docker"@.len()) == "docker"@);
        }
    }
}

/// The UI's action names are read exactly, each as its own action, and any
/// other name (in another case, or with anything more) is ignored.
pub proof fn law_service_actions_read_exactly(action: Seq<char>)
    ensures
        service_action_of("Start"@) == Some(ServiceActionKind::Start),
        service_action_of("Stop"@) == Some(ServiceActionKind::Stop),
        service_action_of("Restart"@) == Some(ServiceActionKind::Restart),
        service_action_of("Pause"@) == Some(ServiceActionKind::Pause),
        service_action_of("Resume"@) == Some(ServiceActionKind::Resume),
        action != "Start"@ && action != "Stop"@ && action != "Restart"@ && action != "Pause"@ && action
            != "Resume"@ ==> service_action_of(action) is None,
{
    reveal_strlit("Start");
    reveal_strlit("Stop");
    reveal_strlit("Restart");
    reveal_strlit("Pause");
    reveal_strlit("Resume");
    assert("Stop"@.len() != "Start"@.len());
    assert("Restart"@.len() != "Start"@.len());
    assert("Restart"@.len() != "Stop"@.len());
    assert("Pause"@[0] != "Start"@[0]);
    assert("Pause"@.len() != "Stop"@.len());
    assert("Pause"@.len() != "Restart"@.len());
    assert("Resume"@.len() != "Start"@.len());
    assert("Resume"@.len() != "Stop"@.len());
    assert("Resume"@.len() != "Restart"@.len());
    assert("Resume"@.len() != "Pause"@.len());
}

} // verus!
