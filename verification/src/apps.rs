//! The built-in table of launchable applications and the alias matching
//! that resolves a spoken query to one of them. Launching the resolved
//! application is process work and lives outside this crate.

use vstd::prelude::*;
use vstd::string::*;

use crate::text::chars_of;
use crate::text::contains_chars;
use crate::text::contains_seq;
use crate::text::fold_case;
use crate::text::lower_of;

verus! {

/// One launchable application: display name, executable, and the spoken
/// aliases that resolve to it.
#[derive(Debug)]
pub struct AppInfo {
    pub name: String,
    pub executable: String,
    pub aliases: Vec<String>,
}

/// An application entry as a mathematical value.
#[verifier::ext_equal]
pub struct AppInfoView {
    pub name: Seq<char>,
    pub executable: Seq<char>,
    pub aliases: Seq<Seq<char>>,
}

impl View for AppInfo {
    type V = AppInfoView;

    open spec fn view(&self) -> AppInfoView {
        AppInfoView {
            name: self.name@,
            executable: self.executable@,
            aliases: Seq::new(self.aliases@.len(), |i: int| self.aliases@[i]@),
        }
    }
}

impl Clone for AppInfo {
    fn clone(&self) -> (r: Self)
        ensures
            r@ == self@,
    {
        let r = AppInfo {
            name: self.name.clone(),
            executable: self.executable.clone(),
            aliases: self.aliases.clone(),
        };
        proof {
            assert(r@.aliases =~= self@.aliases);
            assert(r@ =~= self@);
        }
        r
    }
}

/// The outcome of one launch attempt, as reported to the caller.
#[derive(Debug)]
pub struct LaunchResult {
    pub success: bool,
    pub message: String,
    pub app_name: String,
}

/// The built-in application table: browsers, media, communication,
/// development and system tools.
pub open spec fn default_app_registry() -> Seq<AppInfoView> {
    seq![
        AppInfoView {
            name: "Google Chrome"@,
            executable: "chrome"@,
            aliases: seq!["chrome"@, "google chrome"@, "browser"@],
        },
        AppInfoView {
            name: "Firefox"@,
            executable: "firefox"@,
            aliases: seq!["firefox"@, "mozilla"@],
        },
        AppInfoView {
            name: "Microsoft Edge"@,
            executable: "msedge"@,
            aliases: seq!["edge"@, "microsoft edge"@],
        },
        AppInfoView {
            name: "Spotify"@,
            executable: "spotify.exe"@,
            aliases: seq!["spotify"@, "music"@],
        },
        AppInfoView {
            name: "VLC Media Player"@,
            executable: "vlc"@,
            aliases: seq!["vlc"@, "video player"@],
        },
        AppInfoView { name: "Discord"@, executable: "Discord.exe"@, aliases: seq!["discord"@] },
        AppInfoView { name: "Slack"@, executable: "slack"@, aliases: seq!["slack"@] },
        AppInfoView {
            name: "Microsoft Teams"@,
            executable: "ms-teams"@,
            aliases: seq!["teams"@, "microsoft teams"@],
        },
        AppInfoView {
            name: "Visual Studio Code"@,
            executable: "code"@,
            aliases: seq!["vscode"@, "vs code"@, "code"@, "visual studio code"@],
        },
        AppInfoView {
            name: "Notepad"@,
            executable: "notepad"@,
            aliases: seq!["notepad"@, "text editor"@],
        },
        AppInfoView {
            name: "File Explorer"@,
            executable: "explorer"@,
            aliases: seq!["explorer"@, "file explorer"@, "files"@, "folder"@],
        },
        AppInfoView {
            name: "Calculator"@,
            executable: "calc"@,
            aliases: seq!["calculator"@, "calc"@],
        },
        AppInfoView {
            name: "Windows Terminal"@,
            executable: "wt"@,
            aliases: seq!["terminal"@, "windows terminal"@, "command prompt"@, "cmd"@],
        },
        AppInfoView {
            name: "PowerShell"@,
            executable: "powershell"@,
            aliases: seq!["powershell"@, "pwsh"@],
        },
    ]
}

/// The entry views of an application table.
pub open spec fn views_of(s: Seq<AppInfo>) -> Seq<AppInfoView> {
    Seq::new(s.len(), |i: int| s[i]@)
}

/// Some alias of the entry occurs, after case folding, inside the
/// folded query.
pub open spec fn app_matches(q: Seq<char>, app: AppInfoView) -> bool {
    exists|k: int| 0 <= k < app.aliases.len() && contains_seq(q, lower_of(#[trigger] app.aliases[k]))
}

/// Builds one entry of the table.
fn app_entry(name: &str, executable: &str, aliases: Vec<String>) -> (r: AppInfo)
    ensures
        r@.name == name@,
        r@.executable == executable@,
        r@.aliases == Seq::new(aliases@.len(), |i: int| aliases@[i]@),
{
    AppInfo { name: name.to_owned(), executable: executable.to_owned(), aliases }
}

/// The built-in application table as runtime values.
fn get_app_registry() -> (r: Vec<AppInfo>)
    ensures
        views_of(r@) == default_app_registry(),
{
    let mut apps: Vec<AppInfo> = Vec::new();
    let mut aliases: Vec<String> = Vec::new();
    aliases.push("chrome".to_owned());
    aliases.push("google chrome".to_owned());
    aliases.push("browser".to_owned());
    apps.push(app_entry("Google Chrome", "chrome", aliases));
    let mut aliases: Vec<String> = Vec::new();
    aliases.push("firefox".to_owned());
    aliases.push("mozilla".to_owned());
    apps.push(app_entry("Firefox", "firefox", aliases));
    let mut aliases: Vec<String> = Vec::new();
    aliases.push("edge".to_owned());
    aliases.push("microsoft edge".to_owned());
    apps.push(app_entry("Microsoft Edge", "msedge", aliases));
    let mut aliases: Vec<String> = Vec::new();
    aliases.push("spotify".to_owned());
    aliases.push("music".to_owned());
    apps.push(app_entry("Spotify", "spotify.exe", aliases));
    let mut aliases: Vec<String> = Vec::new();
    aliases.push("vlc".to_owned());
    aliases.push("video player".to_owned());
    apps.push(app_entry("VLC Media Player", "vlc", aliases));
    let mut aliases: Vec<String> = Vec::new();
    aliases.push("discord".to_owned());
    apps.push(app_entry("Discord", "Discord.exe", aliases));
    let mut aliases: Vec<String> = Vec::new();
    aliases.push("slack".to_owned());
    apps.push(app_entry("Slack", "slack", aliases));
    let mut aliases: Vec<String> = Vec::new();
    aliases.push("teams".to_owned());
    aliases.push("microsoft teams".to_owned());
    apps.push(app_entry("Microsoft Teams", "ms-teams", aliases));
    let mut aliases: Vec<String> = Vec::new();
    aliases.push("vscode".to_owned());
    aliases.push("vs code".to_owned());
    aliases.push("code".to_owned());
    aliases.push("visual studio code".to_owned());
    apps.push(app_entry("Visual Studio Code", "code", aliases));
    let mut aliases: Vec<String> = Vec::new();
    aliases.push("notepad".to_owned());
    aliases.push("text editor".to_owned());
    apps.push(app_entry("Notepad", "notepad", aliases));
    let mut aliases: Vec<String> = Vec::new();
    aliases.push("explorer".to_owned());
    aliases.push("file explorer".to_owned());
    aliases.push("files".to_owned());
    aliases.push("folder".to_owned());
    apps.push(app_entry("File Explorer", "explorer", aliases));
    let mut aliases: Vec<String> = Vec::new();
    aliases.push("calculator".to_owned());
    aliases.push("calc".to_owned());
    apps.push(app_entry("Calculator", "calc", aliases));
    let mut aliases: Vec<String> = Vec::new();
    aliases.push("terminal".to_owned());
    aliases.push("windows terminal".to_owned());
    aliases.push("command prompt".to_owned());
    aliases.push("cmd".to_owned());
    apps.push(app_entry("Windows Terminal", "wt", aliases));
    let mut aliases: Vec<String> = Vec::new();
    aliases.push("powershell".to_owned());
    aliases.push("pwsh".to_owned());
    apps.push(app_entry("PowerShell", "powershell", aliases));
    proof {
        assert(views_of(apps@) =~~= default_app_registry());
    }
    apps
}

/// Resolves a spoken query against the built-in table: the first entry
/// with an alias occurring in the lowercased query wins; a query
/// matching no alias resolves to nothing.
pub fn find_app(query: &str) -> (r: Option<AppInfo>)
    ensures
        ({
            let q = lower_of(query@);
            let reg = default_app_registry();
            match r {
                Some(app) => exists|i: int|
                    0 <= i < reg.len() && #[trigger] app_matches(q, reg[i]) && app@ == reg[i] && (
                    forall|k: int| 0 <= k < i ==> !app_matches(q, #[trigger] reg[k])),
                None => forall|i: int| 0 <= i < reg.len() ==> !app_matches(q, #[trigger] reg[i]),
            }
        }),
{
    let folded = fold_case(query);
    let qc = chars_of(folded.as_str());
    let apps = get_app_registry();
    let mut i: usize = 0;
    while i < apps.len()
        invariant
            qc@ == lower_of(query@),
            views_of(apps@) == default_app_registry(),
            i <= apps@.len(),
            apps@.len() == default_app_registry().len(),
            forall|k: int|
                0 <= k < i ==> !app_matches(lower_of(query@), #[trigger] default_app_registry()[k]),
        decreases apps@.len() - i,
    {
        let m = apps[i].aliases.len();
        let mut j: usize = 0;
        while j < m
            invariant
                qc@ == lower_of(query@),
                views_of(apps@) == default_app_registry(),
                i < apps@.len(),
                m == apps@[i as int].aliases@.len(),
                j <= m,
                forall|k: int|
                    0 <= k < i ==> !app_matches(
                        lower_of(query@),
                        #[trigger] default_app_registry()[k],
                    ),
                forall|l: int|
                    0 <= l < j ==> !contains_seq(
                        lower_of(query@),
                        lower_of(#[trigger] apps@[i as int]@.aliases[l]),
                    ),
            decreases m - j,
        {
            let fa = fold_case(apps[i].aliases[j].as_str());
            let ac = chars_of(fa.as_str());
            if contains_chars(&qc, &ac) {
                proof {
                    assert(views_of(apps@)[i as int] == apps@[i as int]@);
                    assert(default_app_registry()[i as int].aliases[j as int] == apps@[
                        i as int
                    ].aliases@[j as int]@);
                    assert(contains_seq(
                        lower_of(query@),
                        lower_of(default_app_registry()[i as int].aliases[j as int]),
                    ));
                    assert(app_matches(lower_of(query@), default_app_registry()[i as int]));
                }
                let found = apps[i].clone();
                proof {
                    assert(found@ == default_app_registry()[i as int]);
                    assert(exists|w: int|
                        0 <= w < default_app_registry().len() && #[trigger] app_matches(
                            lower_of(query@),
                            default_app_registry()[w],
                        ) && found@ == default_app_registry()[w] && (forall|k: int|
                            0 <= k < w ==> !app_matches(
                                lower_of(query@),
                                #[trigger] default_app_registry()[k],
                            ))) by {
                        let w = i as int;
                        assert(0 <= w < default_app_registry().len());
                        assert(app_matches(lower_of(query@), default_app_registry()[w]));
                        assert(found@ == default_app_registry()[w]);
                        assert(forall|k: int|
                            0 <= k < w ==> !app_matches(
                                lower_of(query@),
                                #[trigger] default_app_registry()[k],
                            ));
                        assert(0 <= w < default_app_registry().len() && app_matches(
                            lower_of(query@),
                            default_app_registry()[w],
                        ) && found@ == default_app_registry()[w] && (forall|k: int|
                            0 <= k < w ==> !app_matches(
                                lower_of(query@),
                                #[trigger] default_app_registry()[k],
                            )));
                    }
                }
                return Some(found);
            }
            j = j + 1;
        }
        proof {
            assert(views_of(apps@)[i as int] == apps@[i as int]@);
            assert(!app_matches(lower_of(query@), default_app_registry()[i as int]));
        }
        i = i + 1;
    }
    None
}

} // verus!
