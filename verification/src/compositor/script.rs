//! The script texts handed to the compositor's scripting engine, and the bus
//! addresses derived from a loaded script.

use vstd::prelude::*;
use crate::text::{chars_of, decimal, decimal_string, string_of};

verus! {

/// Script that enumerates the windows, drops the categories that are of no
/// use to a switcher, and prints the rest as a JSON array.
pub const LIST_WINDOWS_SCRIPT: &'static str = r#"(function() {
    var windows = workspace.windowList();
    var result = [];
    for (var i = 0; i < windows.length; i++) {
        var w = windows[i];
        if (w.dock || w.desktopWindow || w.notification || w.splash) continue;
        if (w.popupWindow || w.dialog) continue;
        if (w.resourceClass.toLowerCase() === 'zlaunch') continue;
        if (w.resourceClass === '') continue;
        var desk = 1;
        if (w.desktops && w.desktops.length > 0 && w.desktops[0]) {
            desk = w.desktops[0].x11DesktopNumber || 1;
        }
        result.push({
            id: w.internalId.toString(),
            title: w.caption || w.resourceClass,
            class: w.resourceClass,
            workspace: desk,
            focused: w.active
        });
    }
    print(JSON.stringify(result));
})();
"#;

/// The part of the focus script before the target identity.
pub const FOCUS_SCRIPT_HEAD: &'static str = "(function() {\n    var targetId = '";

/// The part of the focus script after the target identity.
pub const FOCUS_SCRIPT_TAIL: &'static str = r#"';
    var windows = workspace.windowList();
    for (var i = 0; i < windows.length; i++) {
        if (windows[i].internalId.toString() === targetId) {
            workspace.activeWindow = windows[i];
            return;
        }
    }
})();
"#;

/// How one character of an identity is written inside a quoted script literal.
pub open spec fn escaped_char(c: char) -> Seq<char> {
    if c == '\\' {
        seq!['\\', '\\']
    } else if c == '\'' {
        seq!['\\', '\'']
    } else if c == '"' {
        seq!['\\', '"']
    } else if c == '\n' {
        seq!['\\', 'n']
    } else if c == '\r' {
        seq!['\\', 'r']
    } else {
        seq![c]
    }
}

/// How an identity is written inside a quoted script literal.
pub open spec fn escaped(s: Seq<char>) -> Seq<char>
    decreases s.len(),
{
    if s.len() == 0 {
        Seq::empty()
    } else {
        escaped_char(s[0]) + escaped(s.drop_first())
    }
}

/// Whether `c`, standing unescaped inside a quoted literal, ends or breaks it.
pub open spec fn breaks_literal(c: char) -> bool {
    c == '\'' || c == '"' || c == '\n' || c == '\r'
}

/// The character that the escape sequence `\c` stands for, if it is one.
pub open spec fn escape_meaning(c: char) -> Option<char> {
    if c == '\\' || c == '\'' || c == '"' {
        Some(c)
    } else if c == 'n' {
        Some('\n')
    } else if c == 'r' {
        Some('\r')
    } else {
        None
    }
}

/// The string that a script engine reads from the literal body `body`:
/// `None` where the body ends the literal early or holds a broken escape.
pub open spec fn literal_value(body: Seq<char>) -> Option<Seq<char>>
    decreases body.len(),
{
    if body.len() == 0 {
        Some(Seq::empty())
    } else if body[0] == '\\' {
        if body.len() < 2 {
            None
        } else {
            match (escape_meaning(body[1]), literal_value(body.subrange(2, body.len() as int))) {
                (Some(c), Some(rest)) => Some(seq![c] + rest),
                _ => None,
            }
        }
    } else if breaks_literal(body[0]) {
        None
    } else {
        match literal_value(body.drop_first()) {
            Some(rest) => Some(seq![body[0]] + rest),
            None => None,
        }
    }
}

/// Escaping the extension of a string by one character extends the escape.
pub proof fn lemma_escaped_push(s: Seq<char>, c: char)
    ensures
        escaped(s.push(c)) == escaped(s) + escaped_char(c),
    decreases s.len(),
{
    if s.len() == 0 {
        assert(s.push(c).drop_first() =~= Seq::<char>::empty());
        assert(escaped(s.push(c)) =~= escaped_char(c) + escaped(Seq::<char>::empty()));
        assert(escaped(s) + escaped_char(c) =~= escaped_char(c));
        assert(escaped_char(c) + Seq::<char>::empty() =~= escaped_char(c));
    } else {
        lemma_escaped_push(s.drop_first(), c);
        assert(s.push(c).drop_first() =~= s.drop_first().push(c));
        assert(s.push(c)[0] == s[0]);
        assert(escaped_char(s[0]) + (escaped(s.drop_first()) + escaped_char(c)) =~= (escaped_char(
            s[0],
        ) + escaped(s.drop_first())) + escaped_char(c));
    }
}

/// An escaped identity is a well-formed literal body, and the script engine
/// reads from it exactly the identity that was escaped: no quote or backslash
/// in an identity can end the literal early or make it name another window.
pub proof fn lemma_escape_round_trip(s: Seq<char>)
    ensures
        literal_value(escaped(s)) == Some(s),
    decreases s.len(),
{
    if s.len() == 0 {
        assert(escaped(s) =~= Seq::<char>::empty());
        assert(s =~= Seq::<char>::empty());
    } else {
        let c = s[0];
        let rest = s.drop_first();
        lemma_escape_round_trip(rest);
        let body = escaped(s);
        assert(body == escaped_char(c) + escaped(rest));
        if escaped_char(c).len() == 2 {
            assert(body[0] == '\\');
            assert(body.subrange(2, body.len() as int) =~= escaped(rest));
            assert(escape_meaning(body[1]) == Some(c));
        } else {
            assert(body[0] == c);
            assert(body.drop_first() =~= escaped(rest));
        }
        assert(seq![c] + rest =~= s);
    }
}

/// Two identities are escaped to the same text only if they are equal.
pub proof fn lemma_escape_injective(a: Seq<char>, b: Seq<char>)
    requires
        escaped(a) == escaped(b),
    ensures
        a == b,
{
    lemma_escape_round_trip(a);
    lemma_escape_round_trip(b);
}

/// Writes `identity` so that it can stand inside a quoted script literal.
pub fn escape_identity(identity: &str) -> (r: String)
    ensures
        r@ == escaped(identity@),
        literal_value(r@) == Some(identity@),
{
    let src = chars_of(identity);
    let mut out: Vec<char> = Vec::new();
    let mut i: usize = 0;
    while i < src.len()
        invariant
            i <= src.len(),
            out@ == escaped(src@.take(i as int)),
        decreases src.len() - i,
    {
        let c = src[i];
        proof {
            lemma_escaped_push(src@.take(i as int), c);
            assert(src@.take(i as int).push(c) =~= src@.take(i + 1));
        }
        if c == '\\' || c == '\'' || c == '"' {
            out.push('\\');
            out.push(c);
        } else if c == '\n' {
            out.push('\\');
            out.push('n');
        } else if c == '\r' {
            out.push('\\');
            out.push('r');
        } else {
            out.push(c);
        }
        proof {
            assert(out@ =~= escaped(src@.take(i as int)) + escaped_char(c));
        }
        i += 1;
    }
    proof {
        assert(src@.take(src.len() as int) =~= src@);
        lemma_escape_round_trip(identity@);
    }
    string_of(&out)
}

/// The text of the script that focuses the window with the given identity.
pub open spec fn focus_script_text(identity: Seq<char>) -> Seq<char> {
    FOCUS_SCRIPT_HEAD@ + escaped(identity) + FOCUS_SCRIPT_TAIL@
}

/// Renders the script that focuses the window with the given identity.
pub fn focus_script(identity: &str) -> (r: String)
    ensures
        r@ == focus_script_text(identity@),
{
    let body = escape_identity(identity);
    FOCUS_SCRIPT_HEAD.to_owned().concat(body.as_str()).concat(FOCUS_SCRIPT_TAIL)
}

/// The directory for temporary scripts where the session names none.
pub const FALLBACK_DIR: &'static str = "/tmp";

/// Where the script of process `pid` is stored below `dir`.
pub open spec fn script_file_text(dir: Seq<char>, pid: nat) -> Seq<char> {
    dir + "/zlaunch-kwin-script-"@ + decimal(pid) + ".js"@
}

/// The path of the temporary script file: below the session's runtime
/// directory where there is one, else below the shared fallback; the
/// process identifier keeps concurrent launchers apart.
pub fn script_file_path(runtime_dir: Option<&str>, pid: u32) -> (r: String)
    ensures
        r@ == script_file_text(
            match runtime_dir {
                Some(d) => d@,
                None => FALLBACK_DIR@,
            },
            pid as nat,
        ),
{
    let dir = match runtime_dir {
        Some(d) => d,
        None => FALLBACK_DIR,
    };
    let number = decimal_string(pid);
    dir.to_owned().concat("/zlaunch-kwin-script-").concat(number.as_str()).concat(".js")
}

/// The bus object path of the script instance with the given handle.
pub open spec fn object_path_text(handle: nat) -> Seq<char> {
    "/Scripting/Script"@ + decimal(handle)
}

/// Derives the object path that addresses a loaded script.
pub fn script_object_path(handle: i32) -> (r: String)
    requires
        handle >= 0,
    ensures
        r@ == object_path_text(handle as nat),
{
    let number = decimal_string(handle as u32);
    "/Scripting/Script".to_owned().concat(number.as_str())
}

/// The match rule that selects the print signal of the script at `path`.
pub open spec fn match_rule_text(path: Seq<char>) -> Seq<char> {
    "type='signal',sender='org.kde.KWin',path='"@ + path
        + "',interface='org.kde.kwin.Script',member='print'"@
}

/// Renders the bus filter scoped to the print signal of one script instance.
pub fn match_rule(object_path: &str) -> (r: String)
    ensures
        r@ == match_rule_text(object_path@),
{
    "type='signal',sender='org.kde.KWin',path='".to_owned().concat(object_path).concat(
        "',interface='org.kde.kwin.Script',member='print'",
    )
}

} // verus!
