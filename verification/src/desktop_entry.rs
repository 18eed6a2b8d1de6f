//! Desktop entries: what an application may install, and how the portal rewrites it.

use crate::interface::{invalid_argument, other_error, DynamicLauncherError, ErrorView};
use crate::text;
use crate::text::joined;
use vstd::prelude::*;
use vstd::string::*;

verus! {

/// Where the portal keeps desktop files, below the data directory of the user.
pub const XDG_PORTAL_APPLICATIONS_DIR: &'static str = "xdg-desktop-portal/applications";

/// The largest desktop file, in bytes, that the portal writes or reads.
pub const MAX_DESKTOP_SIZE_BYTES: usize = 1048576;

/// The only group that a desktop entry may have.
pub const DESKTOP_GROUP: &'static str = "Desktop Entry";

/// The key of the command line.
pub const KEY_EXEC: &'static str = "Exec";

/// The key of the name.
pub const KEY_NAME: &'static str = "Name";

/// The key of the icon.
pub const KEY_ICON: &'static str = "Icon";

/// The key by which Flatpak knows the application of a launcher.
pub const KEY_FLATPAK: &'static str = "X-Flatpak";

/// A key that Flatpak removes for security.
pub const KEY_BUGZILLA_SCRIPT: &'static str = "X-GNOME-Bugzilla-ExtraInfoScript";

/// An argument that would give an application access to files of the host.
pub const FILE_FORWARDING: &'static str = "--file-forwarding";

/// A word of a command line, with its form quoted for the shell.
pub struct ShellWord {
    pub text: String,
    pub quoted: String,
}

/// The command line of a desktop entry.
pub enum ExecLine {
    /// There is none.
    Missing,
    /// It cannot be parsed into words; the complaint of the parser.
    Malformed(String),
    /// Its words.
    Words(Vec<ShellWord>),
}

/// A desktop entry, as far as the portal reads it.
pub enum DesktopEntry {
    /// It is no key file.
    Unreadable,
    /// Its groups, and the command line in the desktop group.
    Loaded { groups: Vec<String>, command: ExecLine },
}

/// A change to the desktop group of a key file.
#[derive(Debug, PartialEq)]
pub enum KeyFileEdit {
    /// Set a key to a text; the key file escapes it as it needs.
    SetString { key: String, value: String },
    /// Set a key to a value that stands in the key file as it is.
    SetValue { key: String, value: String },
    /// Remove a key, where it is there.
    RemoveKey { key: String },
}

/// A change to a key file, by characters.
pub enum EditView {
    SetString(Seq<char>, Seq<char>),
    SetValue(Seq<char>, Seq<char>),
    RemoveKey(Seq<char>),
}

impl View for KeyFileEdit {
    type V = EditView;

    open spec fn view(&self) -> EditView {
        match self {
            KeyFileEdit::SetString { key, value } => EditView::SetString(key@, value@),
            KeyFileEdit::SetValue { key, value } => EditView::SetValue(key@, value@),
            KeyFileEdit::RemoveKey { key } => EditView::RemoveKey(key@),
        }
    }
}

/// Changes to a key file, by characters.
pub open spec fn edits_view(edits: Seq<KeyFileEdit>) -> Seq<EditView> {
    edits.map_values(|edit: KeyFileEdit| edit@)
}

/// Changes to a key file or an error, by their views.
pub open spec fn edits_outcome(r: Result<Vec<KeyFileEdit>, DynamicLauncherError>) -> Result<
    Seq<EditView>,
    ErrorView,
> {
    match r {
        Ok(edits) => Ok(edits_view(edits@)),
        Err(error) => Err(error@),
    }
}

/// The value of a key: a text that the key file escapes, or a value that stands as it is.
pub enum EntryValue {
    Text(Seq<char>),
    Raw(Seq<char>),
}

/// The keys of a group after a change.
pub open spec fn edited_once(
    entry: Map<Seq<char>, EntryValue>,
    edit: EditView,
) -> Map<Seq<char>, EntryValue> {
    match edit {
        EditView::SetString(key, value) => entry.insert(key, EntryValue::Text(value)),
        EditView::SetValue(key, value) => entry.insert(key, EntryValue::Raw(value)),
        EditView::RemoveKey(key) => entry.remove(key),
    }
}

/// The keys of a group after changes, the first one first.
pub open spec fn edited(
    entry: Map<Seq<char>, EntryValue>,
    edits: Seq<EditView>,
) -> Map<Seq<char>, EntryValue>
    decreases edits.len(),
{
    if edits.len() == 0 {
        entry
    } else {
        edited_once(edited(entry, edits.drop_last()), edits.last())
    }
}

/// The words of a command line that a launcher may have, or the complaint about it.
pub open spec fn exec_check(command: ExecLine) -> Result<Seq<ShellWord>, ErrorView> {
    match command {
        ExecLine::Missing => Err(
            ErrorView::InvalidArgument("Desktop entry given to Install() has no Exec line"@),
        ),
        ExecLine::Malformed(e) => Err(
            ErrorView::InvalidArgument(
                "Desktop entry given to Install() has invalid Exec line: "@ + e@,
            ),
        ),
        ExecLine::Words(words) => if exists|i: int|
            0 <= i < words@.len() && (#[trigger] words@[i]).text@ == FILE_FORWARDING@ {
            Err(
                ErrorView::InvalidArgument(
                    "Desktop entry given to Install() must not use --file-forwarding"@,
                ),
            )
        } else {
            Ok(words@)
        },
    }
}

/// The words that run a command in the sandbox of an application.
pub open spec fn sandboxed_words(quoted_app_id: Seq<char>, words: Seq<ShellWord>) -> Seq<
    Seq<char>,
> {
    let quoted = words.map_values(|w: ShellWord| w.quoted@);
    seq!["flatpak"@, "run"@] + if words.len() == 0 {
        seq![quoted_app_id]
    } else {
        seq!["--command="@ + quoted[0], quoted_app_id] + quoted.drop_first()
    }
}

/// The command line that runs a command in the sandbox of an application.
pub open spec fn sandboxed_exec(quoted_app_id: Seq<char>, words: Seq<ShellWord>) -> Seq<char> {
    joined(sandboxed_words(quoted_app_id, words), " "@)
}

/// The changes that tie a desktop entry to an application.
pub open spec fn launcher_edits(app_id: ShellWord, words: Seq<ShellWord>) -> Seq<EditView> {
    seq![
        EditView::SetValue(KEY_EXEC@, sandboxed_exec(app_id.quoted@, words)),
        EditView::SetValue(KEY_FLATPAK@, app_id.text@),
        EditView::RemoveKey(KEY_BUGZILLA_SCRIPT@),
    ]
}

/// The changes that a desktop entry with this command line needs, or the complaint about it.
pub open spec fn dynamic_launcher_check(app_id: ShellWord, command: ExecLine) -> Result<
    Seq<EditView>,
    ErrorView,
> {
    match exec_check(command) {
        Ok(words) => Ok(launcher_edits(app_id, words)),
        Err(e) => Err(e),
    }
}

/// Whether a desktop entry has the desktop group and no other.
pub open spec fn has_only_desktop_group(groups: Seq<String>) -> bool {
    groups.len() == 1 && groups[0]@ == DESKTOP_GROUP@
}

/// All changes that a desktop entry needs before it is installed, or the complaint about it.
pub open spec fn desktop_entry_check(
    app_id: ShellWord,
    name: Seq<char>,
    icon: Seq<char>,
    entry: DesktopEntry,
) -> Result<Seq<EditView>, ErrorView> {
    match entry {
        DesktopEntry::Unreadable => Err(
            ErrorView::Other("Desktop entry given to Install() not a valid key file"@),
        ),
        DesktopEntry::Loaded { groups, command } => if !has_only_desktop_group(groups@) {
            Err(ErrorView::Other("Desktop entry given to Install() must have exactly one group"@))
        } else {
            match dynamic_launcher_check(app_id, command) {
                Ok(edits) => Ok(
                    seq![
                        EditView::SetString(KEY_NAME@, name),
                        EditView::SetString(KEY_ICON@, icon),
                    ] + edits,
                ),
                Err(e) => Err(e),
            }
        },
    }
}

fn forwards_files(words: &Vec<ShellWord>) -> (r: bool)
    ensures
        r == exists|i: int|
            0 <= i < words@.len() && (#[trigger] words@[i]).text@ == FILE_FORWARDING@,
{
    let mut i: usize = 0;
    while i < words.len()
        invariant
            i <= words@.len(),
            forall|j: int| 0 <= j < i ==> (#[trigger] words@[j]).text@ != FILE_FORWARDING@,
        decreases words@.len() - i,
    {
        if text::equal(words[i].text.as_str(), FILE_FORWARDING) {
            return true;
        }
        i += 1;
    }
    false
}

fn exec_value(quoted_app_id: &str, words: &Vec<ShellWord>) -> (r: String)
    ensures
        r@ == sandboxed_exec(quoted_app_id@, words@),
{
    let ghost quoted = words@.map_values(|w: ShellWord| w.quoted@);
    let mut parts: Vec<String> = Vec::new();
    parts.push("flatpak".to_owned());
    parts.push("run".to_owned());
    if words.len() == 0 {
        parts.push(quoted_app_id.to_owned());
        assert(parts.deep_view() =~= sandboxed_words(quoted_app_id@, words@));
    } else {
        parts.push("--command=".to_owned().concat(words[0].quoted.as_str()));
        parts.push(quoted_app_id.to_owned());
        let ghost head = parts.deep_view();
        assert(head =~= seq!["flatpak"@, "run"@, "--command="@ + quoted[0], quoted_app_id@]);
        let mut i: usize = 1;
        assert(parts.deep_view() =~= head + quoted.subrange(1, 1));
        while i < words.len()
            invariant
                1 <= i <= words@.len(),
                quoted == words@.map_values(|w: ShellWord| w.quoted@),
                parts.deep_view() == head + quoted.subrange(1, i as int),
            decreases words@.len() - i,
        {
            let ghost before = parts.deep_view();
            parts.push(words[i].quoted.as_str().to_owned());
            assert(parts.deep_view() =~= before.push(quoted[i as int]));
            assert(quoted.subrange(1, i as int + 1) =~= quoted.subrange(1, i as int).push(
                quoted[i as int],
            ));
            assert(parts.deep_view() =~= head + quoted.subrange(1, i as int + 1));
            i += 1;
        }
        assert(quoted.drop_first() =~= quoted.subrange(1, words@.len() as int));
        assert(parts.deep_view() =~= sandboxed_words(quoted_app_id@, words@));
    }
    text::join(&parts, " ")
}

/// Checks the command line of a launcher of the application `app_id`, and gives the changes that
/// make the launcher run in the sandbox of the application.
pub fn validate_dynamic_launcher(app_id: &ShellWord, command: ExecLine) -> (r: Result<
    Vec<KeyFileEdit>,
    DynamicLauncherError,
>)
    requires
        app_id.text@.len() > 0,
    ensures
        edits_outcome(r) == dynamic_launcher_check(*app_id, command),
{
    let words = match command {
        ExecLine::Missing => {
            return Err(
                invalid_argument("Desktop entry given to Install() has no Exec line".to_owned()),
            );
        },
        ExecLine::Malformed(e) => {
            return Err(
                invalid_argument(
                    "Desktop entry given to Install() has invalid Exec line: ".to_owned().concat(
                        e.as_str(),
                    ),
                ),
            );
        },
        ExecLine::Words(words) => words,
    };
    if forwards_files(&words) {
        return Err(
            invalid_argument(
                "Desktop entry given to Install() must not use --file-forwarding".to_owned(),
            ),
        );
    }
    let mut edits: Vec<KeyFileEdit> = Vec::new();
    edits.push(
        KeyFileEdit::SetValue {
            key: KEY_EXEC.to_owned(),
            value: exec_value(app_id.quoted.as_str(), &words),
        },
    );
    edits.push(
        KeyFileEdit::SetValue {
            key: KEY_FLATPAK.to_owned(),
            value: app_id.text.as_str().to_owned(),
        },
    );
    edits.push(KeyFileEdit::RemoveKey { key: KEY_BUGZILLA_SCRIPT.to_owned() });
    assert(edits_view(edits@) =~= launcher_edits(*app_id, words@));
    Ok(edits)
}

/// Checks a desktop entry that the application `app_id` wants to install, and gives the changes
/// that it needs: its name, its icon, and what ties it to the application.
pub fn rewrite_desktop_entry(
    app_id: &ShellWord,
    name: &str,
    icon: &str,
    entry: DesktopEntry,
) -> (r: Result<Vec<KeyFileEdit>, DynamicLauncherError>)
    requires
        app_id.text@.len() > 0,
    ensures
        edits_outcome(r) == desktop_entry_check(*app_id, name@, icon@, entry),
{
    match entry {
        DesktopEntry::Unreadable => {
            Err(other_error("Desktop entry given to Install() not a valid key file".to_owned()))
        },
        DesktopEntry::Loaded { groups, command } => {
            if groups.len() != 1 || !text::equal(groups[0].as_str(), DESKTOP_GROUP) {
                return Err(
                    other_error(
                        "Desktop entry given to Install() must have exactly one group".to_owned(),
                    ),
                );
            }
            match validate_dynamic_launcher(app_id, command) {
                Err(e) => Err(e),
                Ok(tail) => {
                    let mut edits: Vec<KeyFileEdit> = Vec::new();
                    edits.push(
                        KeyFileEdit::SetString {
                            key: KEY_NAME.to_owned(),
                            value: name.to_owned(),
                        },
                    );
                    edits.push(
                        KeyFileEdit::SetString {
                            key: KEY_ICON.to_owned(),
                            value: icon.to_owned(),
                        },
                    );
                    let mut tail = tail;
                    let ghost last = tail@;
                    edits.append(&mut tail);
                    assert(edits_view(edits@) =~= seq![
                        EditView::SetString(KEY_NAME@, name@),
                        EditView::SetString(KEY_ICON@, icon@),
                    ] + edits_view(last));
                    Ok(edits)
                },
            }
        },
    }
}

/// Whatever an application wanted to install, the installed entry has the agreed name and icon,
/// belongs to the application, runs in its sandbox, lacks the key that Flatpak removes, and is
/// otherwise as it was; its command line does not ask for file forwarding.
pub proof fn law_installed_entry(
    submitted: Map<Seq<char>, EntryValue>,
    app_id: ShellWord,
    name: Seq<char>,
    icon: Seq<char>,
    groups: Vec<String>,
    command: ExecLine,
)
    requires
        desktop_entry_check(app_id, name, icon, DesktopEntry::Loaded { groups, command }) is Ok,
    ensures
        command is Words,
        forall|i: int|
            0 <= i < command->Words_0@.len() ==> (#[trigger] command->Words_0@[i]).text@
                != FILE_FORWARDING@,
        ({
            let edits = desktop_entry_check(
                app_id,
                name,
                icon,
                DesktopEntry::Loaded { groups, command },
            )->Ok_0;
            let installed = edited(submitted, edits);
            &&& installed.contains_pair(KEY_NAME@, EntryValue::Text(name))
            &&& installed.contains_pair(KEY_ICON@, EntryValue::Text(icon))
            &&& installed.contains_pair(
                KEY_EXEC@,
                EntryValue::Raw(sandboxed_exec(app_id.quoted@, command->Words_0@)),
            )
            &&& installed.contains_pair(KEY_FLATPAK@, EntryValue::Raw(app_id.text@))
            &&& !installed.contains_key(KEY_BUGZILLA_SCRIPT@)
            &&& forall|key: Seq<char>|
                key != KEY_NAME@ && key != KEY_ICON@ && key != KEY_EXEC@ && key != KEY_FLATPAK@
                    && key != KEY_BUGZILLA_SCRIPT@ ==> (#[trigger] installed.contains_key(key)
                    <==> submitted.contains_key(key)) && (submitted.contains_key(key)
                    ==> installed[key] == submitted[key])
        }),
{
    reveal_strlit("Name");
    reveal_strlit("Icon");
    reveal_strlit("Exec");
    reveal_strlit("X-Flatpak");
    reveal_strlit("X-GNOME-Bugzilla-ExtraInfoScript");
    assert(KEY_NAME@[0] == 'N' && KEY_ICON@[0] == 'I' && KEY_EXEC@[0] == 'E');
    assert(KEY_FLATPAK@[0] == 'X' && KEY_FLATPAK@.len() == 9);
    assert(KEY_BUGZILLA_SCRIPT@[0] == 'X' && KEY_BUGZILLA_SCRIPT@.len() == 32);
    let words = command->Words_0@;
    let edits = desktop_entry_check(
        app_id,
        name,
        icon,
        DesktopEntry::Loaded { groups, command },
    )->Ok_0;
    assert(edits =~= seq![
        EditView::SetString(KEY_NAME@, name),
        EditView::SetString(KEY_ICON@, icon),
        EditView::SetValue(KEY_EXEC@, sandboxed_exec(app_id.quoted@, words)),
        EditView::SetValue(KEY_FLATPAK@, app_id.text@),
        EditView::RemoveKey(KEY_BUGZILLA_SCRIPT@),
    ]);
    let e4 = edits.drop_last();
    let e3 = e4.drop_last();
    let e2 = e3.drop_last();
    let e1 = e2.drop_last();
    let e0 = e1.drop_last();
    assert(edited(submitted, e0) == submitted);
    assert(edited(submitted, e1) == edited_once(submitted, edits[0]));
    assert(edited(submitted, e2) == edited_once(edited(submitted, e1), edits[1]));
    assert(edited(submitted, e3) == edited_once(edited(submitted, e2), edits[2]));
    assert(edited(submitted, e4) == edited_once(edited(submitted, e3), edits[3]));
    assert(edited(submitted, edits) == edited_once(edited(submitted, e4), edits[4]));
}

/// Pieces joined begin with what their first pieces joined begin with.
proof fn lemma_joined_prefix(pieces: Seq<Seq<char>>, sep: Seq<char>, n: int)
    requires
        1 <= n < pieces.len(),
    ensures
        (joined(pieces.take(n), sep) + sep).is_prefix_of(joined(pieces, sep)),
    decreases pieces.len(),
{
    let shorter = pieces.drop_last();
    let front = joined(pieces.take(n), sep) + sep;
    let whole = joined(pieces, sep);
    assert(whole == joined(shorter, sep) + sep + pieces.last());
    if n == pieces.len() - 1 {
        assert(pieces.take(n) =~= shorter);
        assert(front =~= whole.subrange(0, front.len() as int));
    } else {
        lemma_joined_prefix(shorter, sep, n);
        assert(shorter.take(n) =~= pieces.take(n));
        assert(front =~= joined(shorter, sep).subrange(0, front.len() as int));
        assert(front =~= whole.subrange(0, front.len() as int));
    }
}

/// The command line of an installed launcher begins with `flatpak run `.
pub proof fn law_launcher_runs_in_flatpak(quoted_app_id: Seq<char>, words: Seq<ShellWord>)
    ensures
        "flatpak run "@.is_prefix_of(sandboxed_exec(quoted_app_id, words)),
{
    reveal_strlit("flatpak");
    reveal_strlit("run");
    reveal_strlit(" ");
    reveal_strlit("flatpak run ");
    let all = sandboxed_words(quoted_app_id, words);
    lemma_joined_prefix(all, " "@, 2);
    let two = all.take(2);
    assert(two.drop_last() =~= seq!["flatpak"@]);
    assert(joined(two.drop_last(), " "@) == "flatpak"@);
    assert(joined(two, " "@) == "flatpak"@ + " "@ + "run"@);
    assert("flatpak run "@ =~= joined(two, " "@) + " "@);
}

/// No word of a command is lost, changed or moved, whatever their number: the first one is the
/// command to run in the sandbox of the application, and the others follow the id of the
/// application in their order.
pub proof fn law_no_word_is_lost(quoted_app_id: Seq<char>, words: Seq<ShellWord>)
    requires
        words.len() > 0,
    ensures
        ({
            let all = sandboxed_words(quoted_app_id, words);
            &&& all.len() == words.len() + 3
            &&& all[0] == "flatpak"@
            &&& all[1] == "run"@
            &&& all[2] == "--command="@ + words[0].quoted@
            &&& all[3] == quoted_app_id
            &&& forall|i: int| 1 <= i < words.len() ==> all[i + 3] == (#[trigger] words[i]).quoted@
        }),
{
    let all = sandboxed_words(quoted_app_id, words);
    assert forall|i: int| 1 <= i < words.len() implies all[i + 3] == (
    #[trigger] words[i]).quoted@ by {
        let quoted = words.map_values(|w: ShellWord| w.quoted@);
        assert(quoted.drop_first()[i - 1] == quoted[i]);
    }
}

/// The command line word by word: without a command only the application is run, a command stands
/// before the application, and a further word is added at the end.
pub proof fn law_command_line_grows(
    quoted_app_id: Seq<char>,
    words: Seq<ShellWord>,
    word: ShellWord,
)
    ensures
        sandboxed_exec(quoted_app_id, Seq::empty()) == "flatpak run "@ + quoted_app_id,
        sandboxed_exec(quoted_app_id, seq![word]) == "flatpak run --command="@ + word.quoted@
            + " "@ + quoted_app_id,
        words.len() > 0 ==> sandboxed_exec(quoted_app_id, words.push(word)) == sandboxed_exec(
            quoted_app_id,
            words,
        ) + " "@ + word.quoted@,
{
    reveal_strlit("flatpak");
    reveal_strlit("run");
    reveal_strlit(" ");
    reveal_strlit("--command=");
    reveal_strlit("flatpak run ");
    reveal_strlit("flatpak run --command=");
    let none = Seq::<ShellWord>::empty();
    let sep = " "@;
    let start = seq!["flatpak"@].push("run"@);
    let p0 = Seq::<Seq<char>>::empty();
    text::law_joining_adds_pieces(p0, "flatpak"@, sep);
    assert(p0.push("flatpak"@) =~= seq!["flatpak"@]);
    text::law_joining_adds_pieces(seq!["flatpak"@], "run"@, sep);
    text::law_joining_adds_pieces(start, quoted_app_id, sep);
    assert(sandboxed_words(quoted_app_id, none) =~= start.push(quoted_app_id));
    assert(sandboxed_exec(quoted_app_id, none) =~= "flatpak run "@ + quoted_app_id);
    let command = "--command="@ + word.quoted@;
    text::law_joining_adds_pieces(start, command, sep);
    text::law_joining_adds_pieces(start.push(command), quoted_app_id, sep);
    assert(sandboxed_words(quoted_app_id, seq![word]) =~= start.push(command).push(quoted_app_id));
    assert(sandboxed_exec(quoted_app_id, seq![word]) =~= "flatpak run --command="@ + word.quoted@
        + " "@ + quoted_app_id);
    if words.len() > 0 {
        let all = sandboxed_words(quoted_app_id, words);
        let more = sandboxed_words(quoted_app_id, words.push(word));
        law_no_word_is_lost(quoted_app_id, words);
        law_no_word_is_lost(quoted_app_id, words.push(word));
        assert forall|k: int| 0 <= k < more.len() implies more[k] == all.push(word.quoted@)[k] by {
            if 4 <= k < all.len() {
                assert(words.push(word)[k - 3] == words[k - 3]);
            } else if k == all.len() {
                assert(words.push(word)[k - 3] == word);
            } else if k == 2 {
                assert(words.push(word)[0] == words[0]);
            }
        }
        assert(more =~= all.push(word.quoted@));
        text::law_joining_adds_pieces(all, word.quoted@, sep);
    }
}

/// A command line is refused if and only if it is missing, is malformed, or has the word
/// `--file-forwarding`; otherwise the entry is changed in three places, and no other: the command
/// line runs in the sandbox, the application is named, and a key is removed.
pub proof fn law_commands_are_sandboxed(
    app_id: &ShellWord,
    command: ExecLine,
    r: Result<Vec<KeyFileEdit>, DynamicLauncherError>,
)
    requires
        call_ensures(validate_dynamic_launcher, (app_id, command), r),
    ensures
        match command {
            ExecLine::Missing => r matches Err(DynamicLauncherError::InvalidArgument { message })
                && message@ == "Desktop entry given to Install() has no Exec line"@,
            ExecLine::Malformed(e) => r matches Err(
                DynamicLauncherError::InvalidArgument { message },
            ) && message@ == "Desktop entry given to Install() has invalid Exec line: "@ + e@,
            ExecLine::Words(words) => {
                let forwards = exists|i: int|
                    0 <= i < words@.len() && (#[trigger] words@[i]).text@ == "--file-forwarding"@;
                &&& forwards ==> (r matches Err(DynamicLauncherError::InvalidArgument { message })
                    && message@
                    == "Desktop entry given to Install() must not use --file-forwarding"@)
                &&& !forwards ==> {
                    &&& r matches Ok(edits)
                    &&& edits@.len() == 3
                    &&& edits@[0] matches KeyFileEdit::SetValue { key, value } && key@ == "Exec"@
                        && value@ == sandboxed_exec(app_id.quoted@, words@)
                    &&& edits@[1] matches KeyFileEdit::SetValue { key, value } && key@
                        == "X-Flatpak"@ && value@ == app_id.text@
                    &&& edits@[2] matches KeyFileEdit::RemoveKey { key } && key@
                        == "X-GNOME-Bugzilla-ExtraInfoScript"@
                }
            },
        },
{
    assert(edits_outcome(r) == dynamic_launcher_check(*app_id, command));
    if let Ok(edits) = r {
        assert(edits_view(edits@) == launcher_edits(*app_id, command->Words_0@));
        assert(edits@.len() == 3);
        assert(edits_view(edits@)[0] == edits@[0]@);
        assert(edits_view(edits@)[1] == edits@[1]@);
        assert(edits_view(edits@)[2] == edits@[2]@);
    }
}

/// A desktop entry is accepted if and only if it can be read, has the group `Desktop Entry` and no
/// other, and its command line is accepted. It is then given the name and the icon, and changed as
/// its command line needs.
pub proof fn law_entries_are_rewritten(
    app_id: &ShellWord,
    name: &str,
    icon: &str,
    entry: DesktopEntry,
    command_edits: Result<Vec<KeyFileEdit>, DynamicLauncherError>,
    r: Result<Vec<KeyFileEdit>, DynamicLauncherError>,
)
    requires
        call_ensures(rewrite_desktop_entry, (app_id, name, icon, entry), r),
        entry is Loaded ==> call_ensures(
            validate_dynamic_launcher,
            (app_id, entry->command),
            command_edits,
        ),
    ensures
        match entry {
            DesktopEntry::Unreadable => r matches Err(DynamicLauncherError::Other { message })
                && message@ == "Desktop entry given to Install() not a valid key file"@,
            DesktopEntry::Loaded { groups, command } => {
                let in_order = groups@.len() == 1 && groups@[0]@ == "Desktop Entry"@;
                &&& !in_order ==> (r matches Err(DynamicLauncherError::Other { message })
                    && message@ == "Desktop entry given to Install() must have exactly one group"@)
                &&& in_order ==> match (command_edits, r) {
                    (Err(DynamicLauncherError::InvalidArgument { message: m }), Err(e)) =>
                        e matches DynamicLauncherError::InvalidArgument { message } && message@ == m@,
                    (Ok(tail), Ok(edits)) => {
                        &&& edits@.len() == tail@.len() + 2
                        &&& edits@[0] matches KeyFileEdit::SetString { key, value } && key@
                            == "Name"@ && value@ == name@
                        &&& edits@[1] matches KeyFileEdit::SetString { key, value } && key@
                            == "Icon"@ && value@ == icon@
                        &&& forall|i: int|
                            0 <= i < tail@.len() ==> match (#[trigger] tail@[i], edits@[i + 2]) {
                                (
                                    KeyFileEdit::SetValue { key: k, value: v },
                                    KeyFileEdit::SetValue { key, value },
                                ) => key@ == k@ && value@ == v@,
                                (
                                    KeyFileEdit::RemoveKey { key: k },
                                    KeyFileEdit::RemoveKey { key },
                                ) => key@ == k@,
                                _ => false,
                            }
                    },
                    _ => false,
                }
            },
        },
{
    assert(edits_outcome(r) == desktop_entry_check(*app_id, name@, icon@, entry));
    if let DesktopEntry::Loaded { groups, command } = entry {
        law_commands_are_sandboxed(app_id, command, command_edits);
        assert(edits_outcome(command_edits) == dynamic_launcher_check(*app_id, command));
        if let Ok(edits) = r {
            if let Ok(tail) = command_edits {
                assert(edits_view(edits@) =~= seq![
                    EditView::SetString(KEY_NAME@, name@),
                    EditView::SetString(KEY_ICON@, icon@),
                ] + edits_view(tail@));
                assert(edits_view(edits@).len() == edits@.len());
                assert(edits_view(edits@)[0] == edits@[0]@);
                assert(edits_view(edits@)[1] == edits@[1]@);
                assert forall|i: int| 0 <= i < tail@.len() implies edits@[i + 2]@ == (
                #[trigger] tail@[i])@ by {
                    assert(edits_view(tail@)[i] == tail@[i]@);
                    assert(edits_view(edits@)[i + 2] == edits@[i + 2]@);
                }
                assert(tail@[0]@ == edits@[2]@);
                assert(tail@[1]@ == edits@[3]@);
                assert(tail@[2]@ == edits@[4]@);
            }
        }
    }
}

} // verus!
