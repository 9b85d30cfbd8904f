//! What the app makes of an update check: the banner of a manual check, the
//! answer of the settings tab, whether an install may start, and the byte
//! count of a download in progress. A remote release only counts as an
//! update when it is strictly newer than the running version.
use vstd::prelude::*;
use vstd::string::StringExecFns;
use crate::text::replace_char;
use crate::version::{compare_versions, version_order};

verus! {

/// The outcome of asking the update server, as plain values.
pub enum UpdateCheck {
    /// The server offers a release.
    Available { version: String, notes: Option<String> },
    /// The server offers nothing.
    UpToDate,
    /// The updater could not be reached or answered with an error.
    Failed(String),
}

/// The server offers a release strictly newer than `current`.
pub open spec fn offers_update(check: UpdateCheck, current: Seq<char>) -> bool {
    match check {
        UpdateCheck::Available { version, .. } => version_order(version@, current) > 0,
        _ => false,
    }
}

/// Release notes as shown: the server's text or a fixed stand-in.
pub open spec fn notes_or_default(notes: Option<String>) -> Seq<char> {
    match notes {
        Some(n) => n@,
        None => "No release notes"@,
    }
}

/// Notes made safe for a double-quoted script string: line breaks become
/// `\n` and double quotes `\"`.
pub open spec fn escaped_notes(notes: Option<String>) -> Seq<char> {
    replace_char(replace_char(notes_or_default(notes), '\n', "\\n"@), '"', "\\\""@)
}

/// The payload of the `update-available` banner.
pub struct UpdateNotice {
    pub version: String,
    pub notes: String,
}

/// What the settings tab shows.
pub struct UpdateInfo {
    pub current_version: String,
    pub available: bool,
    pub latest_version: String,
    pub release_notes: String,
}

/// Whether the offered release is strictly newer than the running one.
fn is_newer(check: &UpdateCheck, current: &str) -> (r: bool)
    ensures
        r == offers_update(*check, current@),
{
    match check {
        UpdateCheck::Available { version, .. } => compare_versions(version.as_str(), current) > 0,
        _ => false,
    }
}

/// The release notes of an offer, or the stand-in text.
fn notes_text(notes: &Option<String>) -> (r: String)
    ensures
        r@ == notes_or_default(*notes),
{
    match notes {
        Some(n) => n.clone(),
        None => String::from_str("No release notes"),
    }
}

/// Escapes release notes for a double-quoted script string.
pub fn escape_notes(notes: &Option<String>) -> (r: String)
    ensures
        r@ == escaped_notes(*notes),
{
    let text = notes_text(notes);
    let once = crate::text::replace_char_str(text.as_str(), '\n', "\\n");
    crate::text::replace_char_str(once.as_str(), '"', "\\\"")
}

/// The banner owed after a check: only a manual check of a strictly newer
/// release shows one; background checks are silent.
pub fn update_notice(check: &UpdateCheck, current_version: &str, manual: bool) -> (r: Option<
    UpdateNotice,
>)
    ensures
        r is Some <==> manual && offers_update(*check, current_version@),
        match r {
            Some(n) => match *check {
                UpdateCheck::Available { version, notes } => n.version@ == version@ && n.notes@
                    == escaped_notes(notes),
                _ => false,
            },
            None => true,
        },
{
    if !manual || !is_newer(check, current_version) {
        return None;
    }
    match check {
        UpdateCheck::Available { version, notes } => Some(
            UpdateNotice { version: version.clone(), notes: escape_notes(notes) },
        ),
        _ => None,
    }
}

/// The answer of the settings tab to a check: an offered release is
/// reported with its version and notes, and is `available` only when it is
/// strictly newer than the running version.
pub fn get_update_info(check: &UpdateCheck, current_version: &str) -> (r: Result<UpdateInfo, String>)
    ensures
        match *check {
            UpdateCheck::Failed(e) => r matches Err(m) && m@ == e@,
            UpdateCheck::UpToDate => r matches Ok(info) && info.current_version@
                == current_version@ && !info.available && info.latest_version@
                == current_version@ && info.release_notes@ == Seq::<char>::empty(),
            UpdateCheck::Available { version, notes } => r matches Ok(info)
                && info.current_version@ == current_version@ && info.available
                == offers_update(*check, current_version@) && info.latest_version@ == version@
                && info.release_notes@ == notes_or_default(notes),
        },
{
    match check {
        UpdateCheck::Failed(e) => Err(e.clone()),
        UpdateCheck::UpToDate => Ok(
            UpdateInfo {
                current_version: String::from_str(current_version),
                available: false,
                latest_version: String::from_str(current_version),
                release_notes: String::new(),
            },
        ),
        UpdateCheck::Available { version, notes } => Ok(
            UpdateInfo {
                current_version: String::from_str(current_version),
                available: is_newer(check, current_version),
                latest_version: version.clone(),
                release_notes: notes_text(notes),
            },
        ),
    }
}

/// Whether an install may start: the version to install, or the message the
/// command fails with. A release that is not strictly newer is refused.
pub fn install_target(check: &UpdateCheck, current_version: &str) -> (r: Result<String, String>)
    ensures
        r is Ok <==> offers_update(*check, current_version@),
        match r {
            Ok(v) => match *check {
                UpdateCheck::Available { version, .. } => v@ == version@,
                _ => false,
            },
            Err(m) => match *check {
                UpdateCheck::Failed(e) => m@ == e@,
                _ => m@ == "No update available"@,
            },
        },
{
    match check {
        UpdateCheck::Failed(e) => Err(e.clone()),
        UpdateCheck::Available { version, .. } => {
            if compare_versions(version.as_str(), current_version) > 0 {
                Ok(version.clone())
            } else {
                Err(String::from_str("No update available"))
            }
        },
        UpdateCheck::UpToDate => Err(String::from_str("No update available")),
    }
}

/// Bytes received so far, and the size announced by the server (0 while
/// unknown).
pub struct DownloadProgress {
    pub downloaded: u64,
    pub total: u64,
}

impl DownloadProgress {
    /// Nothing received, size unknown.
    pub fn new() -> (r: DownloadProgress)
        ensures
            r.downloaded == 0,
            r.total == 0,
    {
        DownloadProgress { downloaded: 0, total: 0 }
    }

    /// Counts one received chunk. The first non-zero announced size is
    /// kept; later announcements do not change it.
    pub fn record_chunk(&mut self, chunk_len: u64, content_length: Option<u64>)
        requires
            old(self).downloaded + chunk_len <= u64::MAX,
        ensures
            final(self).downloaded == old(self).downloaded + chunk_len,
            final(self).total == if old(self).total == 0 {
                match content_length {
                    Some(t) => t,
                    None => 0,
                }
            } else {
                old(self).total
            },
    {
        self.downloaded = self.downloaded + chunk_len;
        if self.total == 0 {
            self.total = match content_length {
                Some(t) => t,
                None => 0,
            };
        }
    }
}

/// Escaped release notes hold no line break, so they stay on one line of
/// the script they are placed in.
pub proof fn lemma_escaped_notes_are_one_line(notes: Option<String>)
    ensures
        crate::text::lacks(escaped_notes(notes), '\n'),
{
    reveal_strlit("\\n");
    reveal_strlit("\\\"");
    let n1 = "\\n"@;
    let n2 = "\\\""@;
    assert(n1.len() == 2 && n1[0] == '\\' && n1[1] == 'n');
    assert(n2.len() == 2 && n2[0] == '\\' && n2[1] == '"');
    crate::text::lemma_replace_char_lacks(notes_or_default(notes), '\n', n1, '\n');
    crate::text::lemma_replace_char_lacks(
        replace_char(notes_or_default(notes), '\n', n1),
        '"',
        n2,
        '\n',
    );
}

/// An offered update is never the running version nor an older one, so
/// neither the banner, the settings tab nor an install can downgrade.
pub proof fn lemma_offer_is_never_a_downgrade(check: UpdateCheck, current: Seq<char>)
    requires
        offers_update(check, current),
    ensures
        check matches UpdateCheck::Available { version, .. } && version@ != current
            && version_order(current, version@) < 0,
{
    if let UpdateCheck::Available { version, .. } = check {
        crate::version::lemma_version_order_antisymmetric(current, version@);
        crate::version::lemma_version_order_reflexive(current);
    }
}

/// Every release strictly newer than the running version counts as an
/// update, and nothing else does: the banner of a manual check, the
/// settings tab's `available` and the install permission all follow.
pub proof fn lemma_every_newer_release_is_offered(
    version: String,
    notes: Option<String>,
    current: Seq<char>,
)
    ensures
        offers_update(UpdateCheck::Available { version, notes }, current) <==> version_order(
            version@,
            current,
        ) > 0,
{
}

} // verus!
