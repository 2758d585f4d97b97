//! Resolution of invocation tokens into a runner configuration.
//!
//! Recognized flags: `--title <value>`, `--icon <url>`, `--tray`.
//! Parsing is best effort and total: unknown tokens and a trailing flag
//! without its value are skipped, and defaults fill whatever was not set.

use vstd::prelude::*;

verus! {

/// Display parameters for one runner invocation, resolved once from the
/// invocation tokens and immutable afterwards.
pub struct Config {
    /// Title shown in the window, the tray tooltip and the labels.
    pub title: String,
    /// Start hidden to the tray instead of showing the window.
    pub start_minimized: bool,
    /// Remote icon to fetch and apply, when present.
    pub icon_url: Option<String>,
}

/// Mathematical image of a [`Config`].
pub ghost struct ConfigView {
    pub title: Seq<char>,
    pub start_minimized: bool,
    pub icon_url: Option<Seq<char>>,
}

impl View for Config {
    type V = ConfigView;

    open spec fn view(&self) -> ConfigView {
        ConfigView {
            title: self.title@,
            start_minimized: self.start_minimized,
            icon_url: self.icon_url.deep_view(),
        }
    }
}

/// The configuration before any token is read: title "Quest Passer",
/// window shown, no icon.
pub open spec fn default_config() -> ConfigView {
    ConfigView { title: "Quest Passer"@, start_minimized: false, icon_url: None }
}

/// One pass over the tokens from position `i` on, threading the
/// configuration resolved so far.  A recognized flag with its value
/// consumes two tokens, `--tray` and every unrecognized or value-less
/// token consumes one.
pub open spec fn resolve_from(args: Seq<Seq<char>>, i: int, cur: ConfigView) -> ConfigView
    decreases args.len() - i,
{
    if i < 0 || i >= args.len() {
        cur
    } else if args[i] == "--title"@ && i + 1 < args.len() {
        resolve_from(args, i + 2, ConfigView { title: args[i + 1], ..cur })
    } else if args[i] == "--icon"@ && i + 1 < args.len() {
        resolve_from(args, i + 2, ConfigView { icon_url: Some(args[i + 1]), ..cur })
    } else if args[i] == "--tray"@ {
        resolve_from(args, i + 1, ConfigView { start_minimized: true, ..cur })
    } else {
        resolve_from(args, i + 1, cur)
    }
}

/// The configuration that a full token list resolves to.  The token at
/// position 0 is the program name and is never read as a flag.
pub open spec fn resolved_config(args: Seq<Seq<char>>) -> ConfigView {
    resolve_from(args, 1, default_config())
}

impl Default for Config {
    /// The configuration used when no flag overrides anything.
    fn default() -> (c: Self)
        ensures
            c@ == default_config(),
    {
        Config {
            title: String::from_str("Quest Passer"),
            start_minimized: false,
            icon_url: None,
        }
    }
}

/// Resolves the invocation token list (program name first) into a
/// configuration.  Total: every token list yields a configuration.
pub fn parse_args(args: &Vec<String>) -> (c: Config)
    ensures
        c@ == resolved_config(args.deep_view()),
{
    let title_flag = String::from_str("--title");
    let icon_flag = String::from_str("--icon");
    let tray_flag = String::from_str("--tray");
    let mut config = Config::default();
    let mut i: usize = 1;
    while i < args.len()
        invariant
            1 <= i,
            resolve_from(args.deep_view(), i as int, config@) == resolved_config(args.deep_view()),
            title_flag@ == "--title"@,
            icon_flag@ == "--icon"@,
            tray_flag@ == "--tray"@,
        decreases args.len() - i,
    {
        proof {
            assert(args.deep_view()[i as int] == args@[i as int]@);
        }
        if args[i] == title_flag && i + 1 < args.len() {
            proof {
                assert(args.deep_view()[i + 1] == args@[i + 1]@);
            }
            config.title = args[i + 1].clone();
            i = i + 2;
        } else if args[i] == icon_flag && i + 1 < args.len() {
            proof {
                assert(args.deep_view()[i + 1] == args@[i + 1]@);
            }
            config.icon_url = Some(args[i + 1].clone());
            i = i + 2;
        } else if args[i] == tray_flag {
            config.start_minimized = true;
            i = i + 1;
        } else {
            i = i + 1;
        }
    }
    config
}

/// One pass of the minimal platform variant, which recognizes
/// `--title` alone and skips every other token.
pub open spec fn resolve_title_from(args: Seq<Seq<char>>, i: int, cur: ConfigView) -> ConfigView
    decreases args.len() - i,
{
    if i < 0 || i >= args.len() {
        cur
    } else if args[i] == "--title"@ && i + 1 < args.len() {
        resolve_title_from(args, i + 2, ConfigView { title: args[i + 1], ..cur })
    } else {
        resolve_title_from(args, i + 1, cur)
    }
}

/// The configuration the minimal platform variant resolves a full
/// token list to.
pub open spec fn resolved_title_only_config(args: Seq<Seq<char>>) -> ConfigView {
    resolve_title_from(args, 1, default_config())
}

/// The minimal platform variant of the resolver: it honors `--title`
/// so the host's spawn arguments stay valid, drops `--icon` and
/// `--tray` silently, and keeps the defaults otherwise.
pub fn parse_args_title_only(args: &Vec<String>) -> (c: Config)
    ensures
        c@ == resolved_title_only_config(args.deep_view()),
{
    let title_flag = String::from_str("--title");
    let mut config = Config::default();
    let mut i: usize = 1;
    while i < args.len()
        invariant
            1 <= i,
            resolve_title_from(args.deep_view(), i as int, config@) == resolved_title_only_config(
                args.deep_view(),
            ),
            title_flag@ == "--title"@,
        decreases args.len() - i,
    {
        proof {
            assert(args.deep_view()[i as int] == args@[i as int]@);
        }
        if args[i] == title_flag && i + 1 < args.len() {
            proof {
                assert(args.deep_view()[i + 1] == args@[i + 1]@);
            }
            config.title = args[i + 1].clone();
            i = i + 2;
        } else {
            i = i + 1;
        }
    }
    config
}

/// A token that is no recognized flag is skipped: what follows it is
/// resolved exactly as if the resolver had started one token later.
pub proof fn lemma_unknown_token_skipped(args: Seq<Seq<char>>, i: int, cur: ConfigView)
    requires
        0 <= i < args.len(),
        args[i] != "--title"@,
        args[i] != "--icon"@,
        args[i] != "--tray"@,
    ensures
        resolve_from(args, i, cur) == resolve_from(args, i + 1, cur),
{
}

/// A value flag standing last, with its value missing, is skipped
/// without error and changes nothing.
pub proof fn lemma_trailing_flag_skipped(args: Seq<Seq<char>>, i: int, cur: ConfigView)
    requires
        0 <= i,
        i == args.len() - 1,
        args[i] == "--title"@ || args[i] == "--icon"@,
    ensures
        resolve_from(args, i, cur) == cur,
{
    reveal_strlit("--title");
    reveal_strlit("--icon");
    reveal_strlit("--tray");
    assert("--title"@.len() == 7 && "--icon"@.len() == 6 && "--tray"@.len() == 6);
    assert("--icon"@[2] != "--tray"@[2]);
    assert(resolve_from(args, i, cur) == resolve_from(args, i + 1, cur));
}

/// The recognized flags are order independent: a title flag and an
/// icon flag resolve to the same configuration in either order, and
/// that configuration carries exactly the two values.
pub proof fn lemma_flag_order_independent(prog: Seq<char>, t: Seq<char>, u: Seq<char>)
    ensures
        resolved_config(seq![prog, "--icon"@, u, "--title"@, t]) == resolved_config(
            seq![prog, "--title"@, t, "--icon"@, u],
        ),
        resolved_config(seq![prog, "--title"@, t, "--icon"@, u]) == (ConfigView {
            title: t,
            start_minimized: false,
            icon_url: Some(u),
        }),
{
    reveal_strlit("--title");
    reveal_strlit("--icon");
    assert("--title"@.len() == 7 && "--icon"@.len() == 6);
    let a1 = seq![prog, "--icon"@, u, "--title"@, t];
    let a2 = seq![prog, "--title"@, t, "--icon"@, u];
    let with_icon = ConfigView { icon_url: Some(u), ..default_config() };
    let with_both = ConfigView { title: t, icon_url: Some(u), ..default_config() };
    assert(a1[1] == "--icon"@ && a1[2] == u && a1[3] == "--title"@ && a1[4] == t);
    assert(resolve_from(a1, 1, default_config()) == resolve_from(a1, 3, with_icon));
    assert(resolve_from(a1, 3, with_icon) == resolve_from(a1, 5, with_both));
    assert(resolve_from(a1, 5, with_both) == with_both);
    let with_title = ConfigView { title: t, ..default_config() };
    assert(a2[1] == "--title"@ && a2[2] == t && a2[3] == "--icon"@ && a2[4] == u);
    assert(resolve_from(a2, 1, default_config()) == resolve_from(a2, 3, with_title));
    assert(resolve_from(a2, 3, with_title) == resolve_from(a2, 5, with_both));
    assert(resolve_from(a2, 5, with_both) == with_both);
}

} // verus!
