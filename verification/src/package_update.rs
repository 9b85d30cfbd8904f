//! Updating by installation kind: how the app finds out how it was
//! installed (AppImage, .deb, .rpm), what it asks the user when a release
//! is offered, and how it installs the release for each kind.
use vstd::prelude::*;
use vstd::string::StringExecFns;
use crate::text::{has_suffix, join_strs, join_with, replace_char};
use crate::updater::{escape_notes, escaped_notes, install_target, offers_update, UpdateCheck};

verus! {

broadcast use vstd::string::group_string_axioms;

/// How the running copy was installed.
#[derive(Clone, Copy, PartialEq, Eq, Structural, Debug)]
pub enum InstallType {
    AppImage,
    Deb,
    Rpm,
    Unknown,
}

pub open spec fn install_type_name(t: InstallType) -> Seq<char> {
    match t {
        InstallType::AppImage => "appimage"@,
        InstallType::Deb => "deb"@,
        InstallType::Rpm => "rpm"@,
        InstallType::Unknown => "unknown"@,
    }
}

impl InstallType {
    /// The name the install command is called with.
    pub fn as_str(&self) -> (r: &'static str)
        ensures
            r@ == install_type_name(*self),
    {
        match self {
            InstallType::AppImage => "appimage",
            InstallType::Deb => "deb",
            InstallType::Rpm => "rpm",
            InstallType::Unknown => "unknown",
        }
    }
}

/// One question asked of the system to learn the installation kind.
#[derive(Clone, Copy, PartialEq, Eq, Structural, Debug)]
pub enum InstallProbe {
    /// Is the `APPIMAGE` environment variable set?
    AppImageVariable,
    /// Does `dpkg -s qwen-studio` succeed?
    DpkgQuery,
    /// Does `rpm -q qwen-studio` succeed?
    RpmQuery,
}

/// After a probe: the kind is known, or another probe is due.
pub enum ProbeStep {
    Found(InstallType),
    Next(InstallProbe),
}

/// The installation kind for the three probe outcomes: the first probe
/// that succeeds, in the order AppImage, .deb, .rpm, decides.
pub open spec fn install_type_from(appimage: bool, dpkg: bool, rpm: bool) -> InstallType {
    if appimage {
        InstallType::AppImage
    } else if dpkg {
        InstallType::Deb
    } else if rpm {
        InstallType::Rpm
    } else {
        InstallType::Unknown
    }
}

/// The probe to run first.
pub fn first_probe() -> (r: InstallProbe)
    ensures
        r == InstallProbe::AppImageVariable,
{
    InstallProbe::AppImageVariable
}

/// What follows a probe. Probes are asked in order, each only after the
/// earlier ones failed, so a success decides the kind as `install_type_from`
/// does with the earlier answers false; a failure moves on to the next
/// probe, and the last probe decides the kind either way.
pub open spec fn probe_step(probe: InstallProbe, succeeded: bool) -> ProbeStep {
    match probe {
        InstallProbe::AppImageVariable => if succeeded {
            ProbeStep::Found(install_type_from(true, false, false))
        } else {
            ProbeStep::Next(InstallProbe::DpkgQuery)
        },
        InstallProbe::DpkgQuery => if succeeded {
            ProbeStep::Found(install_type_from(false, true, false))
        } else {
            ProbeStep::Next(InstallProbe::RpmQuery)
        },
        InstallProbe::RpmQuery => ProbeStep::Found(install_type_from(false, false, succeeded)),
    }
}

/// What follows a probe that succeeded or failed.
pub fn detect_install_type(probe: InstallProbe, succeeded: bool) -> (r: ProbeStep)
    ensures
        r == probe_step(probe, succeeded),
{
    if succeeded {
        ProbeStep::Found(
            match probe {
                InstallProbe::AppImageVariable => InstallType::AppImage,
                InstallProbe::DpkgQuery => InstallType::Deb,
                InstallProbe::RpmQuery => InstallType::Rpm,
            },
        )
    } else {
        match probe {
            InstallProbe::AppImageVariable => ProbeStep::Next(InstallProbe::DpkgQuery),
            InstallProbe::DpkgQuery => ProbeStep::Next(InstallProbe::RpmQuery),
            InstallProbe::RpmQuery => ProbeStep::Found(InstallType::Unknown),
        }
    }
}

/// The outcome of a probe in the given world.
pub open spec fn probe_outcome(probe: InstallProbe, appimage: bool, dpkg: bool, rpm: bool) -> bool {
    match probe {
        InstallProbe::AppImageVariable => appimage,
        InstallProbe::DpkgQuery => dpkg,
        InstallProbe::RpmQuery => rpm,
    }
}

/// Running the probes from the first one, each answered as the world
/// answers it, ends after at most three probes with the kind that
/// `install_type_from` gives; no probe runs after one has succeeded.
pub proof fn lemma_probes_find_install_type(appimage: bool, dpkg: bool, rpm: bool)
    ensures
        ({
            let s1 = probe_step(
                InstallProbe::AppImageVariable,
                probe_outcome(InstallProbe::AppImageVariable, appimage, dpkg, rpm),
            );
            match s1 {
                ProbeStep::Found(t) => t == install_type_from(appimage, dpkg, rpm),
                ProbeStep::Next(p2) => {
                    let s2 = probe_step(p2, probe_outcome(p2, appimage, dpkg, rpm));
                    match s2 {
                        ProbeStep::Found(t) => t == install_type_from(appimage, dpkg, rpm),
                        ProbeStep::Next(p3) => {
                            let s3 = probe_step(p3, probe_outcome(p3, appimage, dpkg, rpm));
                            s3 matches ProbeStep::Found(t) && t == install_type_from(
                                appimage,
                                dpkg,
                                rpm,
                            )
                        },
                    }
                },
            }
        }),
{
}

/// How a release is installed.
pub enum InstallPlan {
    /// Download and install through the built-in updater.
    BuiltIn,
    /// Fetch a package with a shell command and install it with elevated
    /// rights, then restart; `failure` is the error when the command fails.
    Package { url: String, tmp_path: String, command: String, failure: String },
    /// Open the releases page in the browser.
    OpenReleasesPage(String),
}

pub open spec fn deb_url(v: Seq<char>) -> Seq<char> {
    join_with(
        seq![
            "https://github.com/youssefvdel/qwen-studio/releases/download/v"@,
            "/qwen-studio_"@,
            "_amd64.deb"@,
        ],
        v,
    )
}

pub open spec fn deb_tmp_path(v: Seq<char>) -> Seq<char> {
    "/tmp/qwen-studio_"@ + v + ".deb"@
}

pub open spec fn rpm_url(v: Seq<char>) -> Seq<char> {
    join_with(
        seq![
            "https://github.com/youssefvdel/qwen-studio/releases/download/v"@,
            "/qwen-studio-"@,
            ".x86_64.rpm"@,
        ],
        v,
    )
}

pub open spec fn rpm_tmp_path(v: Seq<char>) -> Seq<char> {
    "/tmp/qwen-studio-"@ + v + ".x86_64.rpm"@
}

/// `curl -L '<url>' -o '<tmp>' && pkexec <installer> '<tmp>'`.
pub open spec fn fetch_and_install_command(url: Seq<char>, tmp: Seq<char>, installer: Seq<char>) -> Seq<
    char,
> {
    "curl -L '"@ + url + "' -o '"@ + tmp + "' && pkexec "@ + installer + " '"@ + tmp + "'"@
}

pub open spec fn releases_page() -> Seq<char> {
    "https://github.com/youssefvdel/qwen-studio/releases/latest"@
}

fn concat3(a: &str, b: &str, c: &str) -> (r: String)
    ensures
        r@ == a@ + b@ + c@,
{
    let r = String::from_str(a);
    let r = r.concat(b);
    r.concat(c)
}

fn fetch_and_install(url: &str, tmp: &str, installer: &str) -> (r: String)
    ensures
        r@ == fetch_and_install_command(url@, tmp@, installer@),
{
    let mut r = String::from_str("curl -L '");
    r.append(url);
    r.append("' -o '");
    r.append(tmp);
    r.append("' && pkexec ");
    r.append(installer);
    r.append(" '");
    r.append(tmp);
    r.append("'");
    r
}

/// The plan owed for installation kind `kind` and version `v`: AppImage
/// through the built-in updater, .deb and .rpm through their package tools,
/// anything else by opening the releases page.
pub open spec fn is_install_plan(kind: Seq<char>, v: Seq<char>, p: InstallPlan) -> bool {
    if kind == "appimage"@ {
        p is BuiltIn
    } else if kind == "deb"@ {
        p matches InstallPlan::Package { url, tmp_path, command, failure } && url@ == deb_url(v)
            && tmp_path@ == deb_tmp_path(v) && command@ == fetch_and_install_command(
            url@,
            tmp_path@,
            "dpkg -i"@,
        ) && failure@ == "Failed to install DEB package"@
    } else if kind == "rpm"@ {
        p matches InstallPlan::Package { url, tmp_path, command, failure } && url@ == rpm_url(v)
            && tmp_path@ == rpm_tmp_path(v) && command@ == fetch_and_install_command(
            url@,
            tmp_path@,
            "rpm -Uvh"@,
        ) && failure@ == "Failed to install RPM package"@
    } else {
        p matches InstallPlan::OpenReleasesPage(u) && u@ == releases_page()
    }
}

/// How to install `version` for the kind named `kind`.
fn plan_for_kind(kind: &str, version: &str) -> (r: InstallPlan)
    ensures
        is_install_plan(kind@, version@, r),
{
    if crate::text::eq_str(kind, "appimage") {
        InstallPlan::BuiltIn
    } else if crate::text::eq_str(kind, "deb") {
        let url_pieces = [
            "https://github.com/youssefvdel/qwen-studio/releases/download/v",
            "/qwen-studio_",
            "_amd64.deb",
        ];
        let url = join_strs(&url_pieces, version);
        assert(url_pieces@.map_values(|p: &str| p@) =~= seq![
            "https://github.com/youssefvdel/qwen-studio/releases/download/v"@,
            "/qwen-studio_"@,
            "_amd64.deb"@,
        ]);
        let tmp_path = concat3("/tmp/qwen-studio_", version, ".deb");
        let command = fetch_and_install(url.as_str(), tmp_path.as_str(), "dpkg -i");
        InstallPlan::Package {
            url,
            tmp_path,
            command,
            failure: String::from_str("Failed to install DEB package"),
        }
    } else if crate::text::eq_str(kind, "rpm") {
        let url_pieces = [
            "https://github.com/youssefvdel/qwen-studio/releases/download/v",
            "/qwen-studio-",
            ".x86_64.rpm",
        ];
        let url = join_strs(&url_pieces, version);
        assert(url_pieces@.map_values(|p: &str| p@) =~= seq![
            "https://github.com/youssefvdel/qwen-studio/releases/download/v"@,
            "/qwen-studio-"@,
            ".x86_64.rpm"@,
        ]);
        let tmp_path = concat3("/tmp/qwen-studio-", version, ".x86_64.rpm");
        let command = fetch_and_install(url.as_str(), tmp_path.as_str(), "rpm -Uvh");
        InstallPlan::Package {
            url,
            tmp_path,
            command,
            failure: String::from_str("Failed to install RPM package"),
        }
    } else {
        InstallPlan::OpenReleasesPage(
            String::from_str("https://github.com/youssefvdel/qwen-studio/releases/latest"),
        )
    }
}

/// How to install the release a check offered, for the kind named `kind`
/// (as passed by the install prompt). Nothing is planned unless the check
/// offers a release strictly newer than `current_version`: a failed check
/// gives its error, any other outcome "No update available".
pub fn install_update(kind: &str, check: &UpdateCheck, current_version: &str) -> (r: Result<
    InstallPlan,
    String,
>)
    ensures
        r is Ok <==> offers_update(*check, current_version@),
        match r {
            Ok(plan) => match *check {
                UpdateCheck::Available { version, .. } => is_install_plan(kind@, version@, plan),
                _ => false,
            },
            Err(m) => match *check {
                UpdateCheck::Failed(e) => m@ == e@,
                _ => m@ == "No update available"@,
            },
        },
{
    let version = install_target(check, current_version)?;
    Ok(plan_for_kind(kind, version.as_str()))
}

/// The install command called with the name of an installation kind takes
/// that kind's arm: the built-in updater for AppImage, the .deb package for
/// Deb, the .rpm package for Rpm, and the releases page for Unknown.
pub proof fn lemma_install_plan_follows_install_type(t: InstallType, v: Seq<char>, p: InstallPlan)
    requires
        is_install_plan(install_type_name(t), v, p),
    ensures
        match t {
            InstallType::AppImage => p is BuiltIn,
            InstallType::Deb => p matches InstallPlan::Package { url, tmp_path, command, failure }
                && url@ == "https://github.com/youssefvdel/qwen-studio/releases/download/v"@ + v
                + "/qwen-studio_"@ + v + "_amd64.deb"@ && tmp_path@ == "/tmp/qwen-studio_"@ + v
                + ".deb"@ && command@ == "curl -L '"@ + url@ + "' -o '"@ + tmp_path@
                + "' && pkexec "@ + "dpkg -i"@ + " '"@ + tmp_path@ + "'"@ && failure@
                == "Failed to install DEB package"@,
            InstallType::Rpm => p matches InstallPlan::Package { url, tmp_path, command, failure }
                && url@ == "https://github.com/youssefvdel/qwen-studio/releases/download/v"@ + v
                + "/qwen-studio-"@ + v + ".x86_64.rpm"@ && tmp_path@ == "/tmp/qwen-studio-"@ + v
                + ".x86_64.rpm"@ && command@ == "curl -L '"@ + url@ + "' -o '"@ + tmp_path@
                + "' && pkexec "@ + "rpm -Uvh"@ + " '"@ + tmp_path@ + "'"@ && failure@
                == "Failed to install RPM package"@,
            InstallType::Unknown => p matches InstallPlan::OpenReleasesPage(u) && u@
                == "https://github.com/youssefvdel/qwen-studio/releases/latest"@,
        },
{
    reveal_strlit("appimage");
    reveal_strlit("deb");
    reveal_strlit("rpm");
    reveal_strlit("unknown");
    assert("appimage"@.len() == 8 && "unknown"@.len() == 7);
    assert("deb"@.len() == 3 && "rpm"@.len() == 3);
    assert("deb"@[0] == 'd' && "rpm"@[0] == 'r');
    assert("deb"@ != "rpm"@);
    let s3 = seq![
        "https://github.com/youssefvdel/qwen-studio/releases/download/v"@,
        "/qwen-studio_"@,
        "_amd64.deb"@,
    ];
    assert(s3.drop_last().drop_last() =~= seq![s3[0]]);
    assert(join_with(s3.drop_last(), v) == join_with(s3.drop_last().drop_last(), v) + v + s3[1]);
    let r3 = seq![
        "https://github.com/youssefvdel/qwen-studio/releases/download/v"@,
        "/qwen-studio-"@,
        ".x86_64.rpm"@,
    ];
    assert(r3.drop_last().drop_last() =~= seq![r3[0]]);
    assert(join_with(r3.drop_last(), v) == join_with(r3.drop_last().drop_last(), v) + v + r3[1]);
}

/// The question put to the user when a release is offered, before line
/// breaks are escaped.
pub open spec fn prompt_message(t: InstallType, version: Seq<char>, notes: Seq<char>) -> Seq<char> {
    match t {
        InstallType::AppImage => "Update "@ + version + " is available (AppImage).\n\n"@ + notes
            + "\n\nDownload and install now?"@,
        InstallType::Deb => "Update "@ + version + " is available (.deb).\n\n"@ + notes
            + "\n\nDownload and install? (requires sudo)"@,
        InstallType::Rpm => "Update "@ + version + " is available (.rpm).\n\n"@ + notes
            + "\n\nDownload and install? (requires sudo)"@,
        InstallType::Unknown => "Update "@ + version + " is available.\n\n"@ + notes
            + "\n\nOpen GitHub releases page?"@,
    }
}

/// The confirm dialog that starts the install of the offered release.
pub open spec fn prompt_script(t: InstallType, version: Seq<char>, notes: Seq<char>) -> Seq<char> {
    "if(confirm(\""@ + replace_char(prompt_message(t, version, notes), '\n', "\\n"@)
        + "\")) { window.__TAURI__.core.invoke('install_update', { type: '"@ + install_type_name(
        t,
    ) + "' }); }"@
}

/// The confirm dialog of a manual check asks for the install of the kind
/// that was detected: it ends by invoking `install_update` with that kind's
/// name.
pub proof fn lemma_prompt_invokes_detected_kind(t: InstallType, version: Seq<char>, notes: Seq<char>)
    ensures
        has_suffix(
            prompt_script(t, version, notes),
            "\")) { window.__TAURI__.core.invoke('install_update', { type: '"@ + match t {
                InstallType::AppImage => "appimage"@,
                InstallType::Deb => "deb"@,
                InstallType::Rpm => "rpm"@,
                InstallType::Unknown => "unknown"@,
            } + "' }); }"@,
        ),
{
    let s = prompt_script(t, version, notes);
    let head = "if(confirm(\""@ + replace_char(prompt_message(t, version, notes), '\n', "\\n"@);
    let tail = "\")) { window.__TAURI__.core.invoke('install_update', { type: '"@ + install_type_name(t)
        + "' }); }"@;
    assert(s =~= head + tail);
    assert(s.subrange(s.len() - tail.len(), s.len() as int) =~= tail);
}

/// The question of the install prompt names the offered version and the
/// installation kind, shows the notes, and asks what confirming will do:
/// install (with sudo for the packages) or open the releases page.
pub proof fn lemma_prompt_names_version_and_kind(t: InstallType, version: Seq<char>, notes: Seq<char>)
    ensures
        prompt_message(t, version, notes) == "Update "@ + version + match t {
            InstallType::AppImage => " is available (AppImage).\n\n"@,
            InstallType::Deb => " is available (.deb).\n\n"@,
            InstallType::Rpm => " is available (.rpm).\n\n"@,
            InstallType::Unknown => " is available.\n\n"@,
        } + notes + match t {
            InstallType::AppImage => "\n\nDownload and install now?"@,
            InstallType::Deb => "\n\nDownload and install? (requires sudo)"@,
            InstallType::Rpm => "\n\nDownload and install? (requires sudo)"@,
            InstallType::Unknown => "\n\nOpen GitHub releases page?"@,
        },
{
}

pub open spec fn up_to_date_script() -> Seq<char> {
    "alert(\"You are running the latest version.\");"@
}

pub open spec fn check_failed_script(error: Seq<char>) -> Seq<char> {
    "alert(\"Update check failed:\\n"@ + replace_char(error, '"', "\\\""@) + "\");"@
}

fn prompt_message_text(t: InstallType, version: &str, notes: &str) -> (r: String)
    ensures
        r@ == prompt_message(t, version@, notes@),
{
    let mut r = String::from_str("Update ");
    r.append(version);
    match t {
        InstallType::AppImage => {
            r.append(" is available (AppImage).\n\n");
            r.append(notes);
            r.append("\n\nDownload and install now?");
        },
        InstallType::Deb => {
            r.append(" is available (.deb).\n\n");
            r.append(notes);
            r.append("\n\nDownload and install? (requires sudo)");
        },
        InstallType::Rpm => {
            r.append(" is available (.rpm).\n\n");
            r.append(notes);
            r.append("\n\nDownload and install? (requires sudo)");
        },
        InstallType::Unknown => {
            r.append(" is available.\n\n");
            r.append(notes);
            r.append("\n\nOpen GitHub releases page?");
        },
    }
    r
}

/// The script the main window runs after a check, if any. Background
/// checks are silent. A manual check prompts the install of a release
/// strictly newer than `current_version`, and otherwise shows the
/// up-to-date notice, or the failure notice when the check failed.
pub fn check_for_updates(
    check: &UpdateCheck,
    manual: bool,
    install_type: InstallType,
    current_version: &str,
) -> (r: Option<String>)
    ensures
        !manual ==> r is None,
        manual ==> match *check {
            UpdateCheck::Available { version, notes } => if offers_update(
                *check,
                current_version@,
            ) {
                r matches Some(s) && s@ == prompt_script(install_type, version@, escaped_notes(notes))
            } else {
                r matches Some(s) && s@ == up_to_date_script()
            },
            UpdateCheck::UpToDate => r matches Some(s) && s@ == up_to_date_script(),
            UpdateCheck::Failed(e) => r matches Some(s) && s@ == check_failed_script(e@),
        },
{
    if !manual {
        return None;
    }
    match check {
        UpdateCheck::Available { version, notes } => {
            if crate::version::compare_versions(version.as_str(), current_version) > 0 {
                let escaped = escape_notes(notes);
                let msg = prompt_message_text(install_type, version.as_str(), escaped.as_str());
                let mut s = String::from_str("if(confirm(\"");
                let body = crate::text::replace_char_str(msg.as_str(), '\n', "\\n");
                s.append(body.as_str());
                s.append("\")) { window.__TAURI__.core.invoke('install_update', { type: '");
                s.append(install_type.as_str());
                s.append("' }); }");
                Some(s)
            } else {
                Some(String::from_str("alert(\"You are running the latest version.\");"))
            }
        },
        UpdateCheck::UpToDate => Some(
            String::from_str("alert(\"You are running the latest version.\");"),
        ),
        UpdateCheck::Failed(e) => {
            let mut s = String::from_str("alert(\"Update check failed:\\n");
            let body = crate::text::replace_char_str(e.as_str(), '"', "\\\"");
            s.append(body.as_str());
            s.append("\");");
            Some(s)
        },
    }
}

} // verus!
