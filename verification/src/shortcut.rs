//! Global shortcuts, the tray icon's clicks and the tray menu: what each
//! input asks the application to do.

use vstd::prelude::*;
use vstd::string::*;
use crate::text::str_eq;

verus! {

/// Modifier keys held with a shortcut.
#[derive(Debug, Clone, Copy, PartialEq, Eq, Structural)]
pub struct Modifiers {
    pub alt: bool,
    pub control: bool,
    pub shift: bool,
    pub super_key: bool,
}

/// The toggle shortcut read from its setting: the modifiers named, and the
/// parts that may name its key, in order.  Which of them name a key of the
/// keyboard the shortcut plugin tells; the key is the last one that does
/// (see [`last_key_index`]).
#[derive(Debug, PartialEq, Eq)]
pub struct ToggleShortcut {
    pub modifiers: Modifiers,
    pub keys: Vec<String>,
}

/// A toggle shortcut taken as plain values.
pub struct ShortcutModel {
    pub modifiers: Modifiers,
    pub keys: Seq<Seq<char>>,
}

impl View for ToggleShortcut {
    type V = ShortcutModel;

    open spec fn view(&self) -> ShortcutModel {
        ShortcutModel { modifiers: self.modifiers, keys: self.keys@.map_values(|k: String| k@) }
    }
}

/// The parts of `s` between `+` signs, empty parts included.
pub open spec fn split_plus(s: Seq<char>) -> Seq<Seq<char>>
    decreases s.len(),
{
    if s.len() == 0 {
        seq![Seq::empty()]
    } else {
        let init = split_plus(s.drop_last());
        if s.last() == '+' {
            init.push(Seq::empty())
        } else {
            init.update(init.len() - 1, init.last().push(s.last()))
        }
    }
}

/// The parts joined again with `+` between them.
pub open spec fn join_plus(parts: Seq<Seq<char>>) -> Seq<char>
    decreases parts.len(),
{
    if parts.len() == 0 {
        Seq::empty()
    } else if parts.len() == 1 {
        parts[0]
    } else {
        join_plus(parts.drop_last()) + seq!['+'] + parts.last()
    }
}

/// Splitting at `+` loses nothing: there is at least one part, no part
/// holds a `+`, and joining the parts with `+` gives the text back.
pub proof fn lemma_split_plus(s: Seq<char>)
    ensures
        split_plus(s).len() >= 1,
        forall|k: int, j: int|
            0 <= k < split_plus(s).len() && 0 <= j < split_plus(s)[k].len() ==> #[trigger] split_plus(
                s,
            )[k][j] != '+',
        join_plus(split_plus(s)) == s,
    decreases s.len(),
{
    if s.len() > 0 {
        let init = s.drop_last();
        let c = s.last();
        lemma_split_plus(init);
        let p = split_plus(init);
        let r = split_plus(s);
        if c == '+' {
            assert(r == p.push(Seq::<char>::empty()));
            assert(r.drop_last() =~= p);
            assert forall|k: int, j: int| 0 <= k < r.len() && 0 <= j < r[k].len() implies #[trigger] r[k][j] != '+' by {
                assert(k < p.len());
                assert(r[k] == p[k]);
            }
            assert(join_plus(r) =~= s);
        } else {
            let last = p.last().push(c);
            assert(r == p.update(p.len() - 1, last));
            assert forall|k: int, j: int| 0 <= k < r.len() && 0 <= j < r[k].len() implies #[trigger] r[k][j] != '+' by {
                if k == p.len() - 1 {
                    assert(r[k] == last);
                    if j < p.last().len() {
                        assert(last[j] == p[p.len() - 1][j]);
                    }
                } else {
                    assert(r[k] == p[k]);
                }
            }
            if p.len() == 1 {
                assert(join_plus(r) == r[0]);
                assert(join_plus(p) == p[0]);
                assert(join_plus(r) =~= s);
            } else {
                assert(r.drop_last() =~= p.drop_last());
                assert(join_plus(r) == join_plus(p.drop_last()) + seq!['+'] + last);
                assert(join_plus(p) == join_plus(p.drop_last()) + seq!['+'] + p.last());
                assert(join_plus(r) =~= join_plus(p).push(c));
                assert(init.push(c) =~= s);
            }
        }
    } else {
        assert(split_plus(s) == seq![Seq::<char>::empty()]);
        assert(s =~= Seq::<char>::empty());
    }
}

/// A shortcut with no modifier and no key.
pub open spec fn no_shortcut() -> ShortcutModel {
    ShortcutModel {
        modifiers: Modifiers { alt: false, control: false, shift: false, super_key: false },
        keys: Seq::empty(),
    }
}

/// The parts that name the Alt, Control, Shift and Super modifiers.
pub open spec fn names_alt(part: Seq<char>) -> bool {
    part == "Alt"@
}

pub open spec fn names_control(part: Seq<char>) -> bool {
    part == "Ctrl"@ || part == "Control"@
}

pub open spec fn names_shift(part: Seq<char>) -> bool {
    part == "Shift"@
}

pub open spec fn names_super(part: Seq<char>) -> bool {
    part == "Super"@ || part == "Win"@ || part == "Cmd"@
}

/// A part may name a key when it is neither empty nor a modifier's name.
pub open spec fn names_key(part: Seq<char>) -> bool {
    part.len() > 0 && !names_alt(part) && !names_control(part) && !names_shift(part)
        && !names_super(part)
}

/// What one part of the setting adds: a modifier (`Alt`; `Ctrl` or
/// `Control`; `Shift`; `Super`, `Win` or `Cmd`), or else a part that may
/// name the key; an empty part adds nothing.
pub open spec fn apply_part(acc: ShortcutModel, part: Seq<char>) -> ShortcutModel {
    let m = acc.modifiers;
    if names_alt(part) {
        ShortcutModel { modifiers: Modifiers { alt: true, ..m }, ..acc }
    } else if names_control(part) {
        ShortcutModel { modifiers: Modifiers { control: true, ..m }, ..acc }
    } else if names_shift(part) {
        ShortcutModel { modifiers: Modifiers { shift: true, ..m }, ..acc }
    } else if names_super(part) {
        ShortcutModel { modifiers: Modifiers { super_key: true, ..m }, ..acc }
    } else if part.len() > 0 {
        ShortcutModel { keys: acc.keys.push(part), ..acc }
    } else {
        acc
    }
}

/// The shortcut that the parts name, read left to right.
pub open spec fn fold_parts(parts: Seq<Seq<char>>) -> ShortcutModel
    decreases parts.len(),
{
    if parts.len() == 0 {
        no_shortcut()
    } else {
        apply_part(fold_parts(parts.drop_last()), parts.last())
    }
}

/// The shortcut that a setting such as `"Alt+Space"` names.
pub open spec fn shortcut_of(setting: Seq<char>) -> ShortcutModel {
    fold_parts(split_plus(setting))
}

/// The modifiers' names are all different.
proof fn lemma_modifier_names_distinct()
    ensures
        "Alt"@ != "Ctrl"@ && "Alt"@ != "Control"@ && "Alt"@ != "Shift"@ && "Alt"@ != "Super"@
            && "Alt"@ != "Win"@ && "Alt"@ != "Cmd"@,
        "Ctrl"@ != "Shift"@ && "Ctrl"@ != "Super"@ && "Ctrl"@ != "Win"@ && "Ctrl"@ != "Cmd"@,
        "Control"@ != "Shift"@ && "Control"@ != "Super"@ && "Control"@ != "Win"@ && "Control"@
            != "Cmd"@,
        "Shift"@ != "Super"@ && "Shift"@ != "Win"@ && "Shift"@ != "Cmd"@,
{
    reveal_strlit("Alt");
    reveal_strlit("Ctrl");
    reveal_strlit("Control");
    reveal_strlit("Shift");
    reveal_strlit("Super");
    reveal_strlit("Win");
    reveal_strlit("Cmd");
    assert("Alt"@[0] != "Win"@[0] && "Alt"@[0] != "Cmd"@[0]);
    assert("Shift"@[1] != "Super"@[1]);
    assert("Alt"@.len() == 3 && "Win"@.len() == 3 && "Cmd"@.len() == 3 && "Ctrl"@.len() == 4);
    assert("Shift"@.len() == 5 && "Super"@.len() == 5 && "Control"@.len() == 7);
}

/// Reading the parts gives the same thing in any order of the modifiers: a
/// modifier is held exactly when some part names it, and the parts that may
/// name the key are those that are neither empty nor a modifier's name, in
/// their order.
pub proof fn lemma_fold_parts(parts: Seq<Seq<char>>)
    ensures
        fold_parts(parts).modifiers.alt <==> exists|i: int|
            0 <= i < parts.len() && names_alt(#[trigger] parts[i]),
        fold_parts(parts).modifiers.control <==> exists|i: int|
            0 <= i < parts.len() && names_control(#[trigger] parts[i]),
        fold_parts(parts).modifiers.shift <==> exists|i: int|
            0 <= i < parts.len() && names_shift(#[trigger] parts[i]),
        fold_parts(parts).modifiers.super_key <==> exists|i: int|
            0 <= i < parts.len() && names_super(#[trigger] parts[i]),
        fold_parts(parts).keys == parts.filter(|p: Seq<char>| names_key(p)),
    decreases parts.len(),
{
    lemma_modifier_names_distinct();
    reveal_with_fuel(Seq::filter, 1);
    if parts.len() > 0 {
        let init = parts.drop_last();
        let last = parts.last();
        lemma_fold_parts(init);
        assert forall|i: int| 0 <= i < init.len() implies #[trigger] parts[i] == init[i] by {}
        assert(parts[parts.len() - 1] == last);
        let acc = fold_parts(init);
        let r = fold_parts(parts);
        assert(r == apply_part(acc, last));
        assert(r.modifiers.alt == (acc.modifiers.alt || names_alt(last)));
        assert(r.modifiers.control == (acc.modifiers.control || names_control(last)));
        assert(r.modifiers.shift == (acc.modifiers.shift || names_shift(last)));
        assert(r.modifiers.super_key == (acc.modifiers.super_key || names_super(last)));
    }
}

/// The position of the last `true` in `known`, if any.
pub open spec fn last_true(known: Seq<bool>) -> Option<int>
    decreases known.len(),
{
    if known.len() == 0 {
        None
    } else if known.last() {
        Some(known.len() - 1)
    } else {
        last_true(known.drop_last())
    }
}

/// The key chosen is one the plugin reads, and no later part is read as a
/// key; where the plugin reads none, none is chosen.
pub proof fn lemma_last_true(known: Seq<bool>)
    ensures
        last_true(known) matches Some(i) ==> 0 <= i < known.len() && known[i] && forall|j: int|
            i < j < known.len() ==> !(#[trigger] known[j]),
        last_true(known) is None ==> forall|j: int| 0 <= j < known.len() ==> !(#[trigger] known[j]),
    decreases known.len(),
{
    if known.len() > 0 {
        let init = known.drop_last();
        lemma_last_true(init);
        assert forall|j: int| 0 <= j < init.len() implies #[trigger] known[j] == init[j] by {}
    }
}

/// Which of the key parts is the toggle's key, given for each whether the
/// shortcut plugin reads a key from it: the last one it reads, as a part
/// that names no key leaves the key named before it.
pub fn last_key_index(known: &Vec<bool>) -> (r: Option<usize>)
    ensures
        match last_true(known@) {
            Some(i) => r == Some(i as usize),
            None => r is None,
        },
{
    let mut i: usize = known.len();
    assert(known@.take(i as int) =~= known@);
    while i > 0
        invariant
            i <= known@.len(),
            last_true(known@) == last_true(known@.take(i as int)),
        decreases i,
    {
        assert(known@.take(i as int).drop_last() =~= known@.take(i - 1));
        if known[i - 1] {
            return Some(i - 1);
        }
        i = i - 1;
    }
    None
}

fn apply_part_exec(acc: ToggleShortcut, part: &str) -> (r: ToggleShortcut)
    ensures
        r@ == apply_part(acc@, part@),
{
    let mut m = acc.modifiers;
    if str_eq(part, "Alt") {
        m.alt = true;
        ToggleShortcut { modifiers: m, keys: acc.keys }
    } else if str_eq(part, "Ctrl") || str_eq(part, "Control") {
        m.control = true;
        ToggleShortcut { modifiers: m, keys: acc.keys }
    } else if str_eq(part, "Shift") {
        m.shift = true;
        ToggleShortcut { modifiers: m, keys: acc.keys }
    } else if str_eq(part, "Super") || str_eq(part, "Win") || str_eq(part, "Cmd") {
        m.super_key = true;
        ToggleShortcut { modifiers: m, keys: acc.keys }
    } else if !part.is_empty() {
        let mut keys = acc.keys;
        let ghost before = keys@;
        keys.push(part.to_owned());
        assert(keys@.map_values(|k: String| k@) =~= before.map_values(|k: String| k@).push(part@));
        ToggleShortcut { modifiers: m, keys }
    } else {
        acc
    }
}

/// Reads the toggle shortcut setting: splits it at each `+` and takes the
/// modifiers named and the parts that may name the key.
pub fn parse_toggle_shortcut(setting: &str) -> (r: ToggleShortcut)
    ensures
        r@ == shortcut_of(setting@),
{
    let n = setting.unicode_len();
    let mut acc = ToggleShortcut {
        modifiers: Modifiers { alt: false, control: false, shift: false, super_key: false },
        keys: Vec::new(),
    };
    assert(acc@.keys =~= Seq::<Seq<char>>::empty());
    let mut start: usize = 0;
    let mut i: usize = 0;
    proof {
        assert(setting@.take(0) =~= Seq::<char>::empty());
        assert(setting@.subrange(0, 0) =~= Seq::<char>::empty());
        assert(split_plus(Seq::<char>::empty()).drop_last() =~= Seq::<Seq<char>>::empty());
    }
    while i < n
        invariant
            n == setting@.len(),
            start <= i <= n,
            split_plus(setting@.take(i as int)).len() >= 1,
            split_plus(setting@.take(i as int)).last() == setting@.subrange(start as int, i as int),
            acc@ == fold_parts(split_plus(setting@.take(i as int)).drop_last()),
        decreases n - i,
    {
        let c = setting.get_char(i);
        let ghost prefix = setting@.take(i as int);
        let ghost parts = split_plus(prefix);
        assert(setting@.take(i + 1).drop_last() =~= prefix);
        assert(setting@.take(i + 1).last() == c);
        if c == '+' {
            let part = setting.substring_char(start, i);
            assert(parts =~= parts.drop_last().push(parts.last()));
            acc = apply_part_exec(acc, part);
            assert(split_plus(setting@.take(i + 1)).drop_last() =~= parts);
            start = i + 1;
            assert(setting@.subrange(start as int, i + 1) =~= Seq::<char>::empty());
        } else {
            let ghost next = split_plus(setting@.take(i + 1));
            assert(next.drop_last() =~= parts.drop_last());
            assert(setting@.subrange(start as int, i + 1) =~= setting@.subrange(start as int, i as int).push(c));
        }
        i = i + 1;
    }
    let last = setting.substring_char(start, n);
    proof {
        let parts = split_plus(setting@.take(n as int));
        assert(setting@.take(n as int) =~= setting@);
        assert(parts =~= parts.drop_last().push(parts.last()));
    }
    apply_part_exec(acc, last)
}

/// Whether a toggle shortcut setting is registered at all: only a
/// non-empty one is.
pub fn registers_toggle(setting: &str) -> (r: bool)
    ensures
        r == (setting@.len() > 0),
{
    !setting.is_empty()
}

/// What a global shortcut event asks for.
#[derive(Debug, Clone, Copy, PartialEq, Eq, Structural)]
pub enum ShortcutAction {
    /// Nothing (a release, or a shortcut that is not ours).
    Ignore,
    /// Show the window if hidden, else hide it.
    ToggleWindow,
    /// Show and focus the window and open quick input.
    QuickInput,
}

/// What a shortcut event asks for, given whether the key was pressed (not
/// released), whether it is the configured toggle shortcut (which needs the
/// setting to name a key), and whether it is the quick input shortcut.  The
/// toggle shortcut wins where both match.
pub fn shortcut_action(pressed: bool, is_toggle: bool, is_quick_input: bool) -> (r: ShortcutAction)
    ensures
        r == (if !pressed {
            ShortcutAction::Ignore
        } else if is_toggle {
            ShortcutAction::ToggleWindow
        } else if is_quick_input {
            ShortcutAction::QuickInput
        } else {
            ShortcutAction::Ignore
        }),
{
    if !pressed {
        ShortcutAction::Ignore
    } else if is_toggle {
        ShortcutAction::ToggleWindow
    } else if is_quick_input {
        ShortcutAction::QuickInput
    } else {
        ShortcutAction::Ignore
    }
}

/// The fixed quick input shortcut, Ctrl+Alt+Shift+C: its modifiers and the
/// name of its key.
pub fn quick_input_shortcut() -> (r: (Modifiers, String))
    ensures
        r.0 == (Modifiers { alt: true, control: true, shift: true, super_key: false }),
        r.1@ == "C"@,
{
    (Modifiers { alt: true, control: true, shift: true, super_key: false }, "C".to_owned())
}

/// What toggling the main window does.
#[derive(Debug, Clone, Copy, PartialEq, Eq, Structural)]
pub enum WindowAction {
    Hide,
    ShowAndFocus,
}

/// Toggling hides a visible window and shows and focuses a hidden one.
pub fn toggle_window(visible: bool) -> (r: WindowAction)
    ensures
        r == (if visible {
            WindowAction::Hide
        } else {
            WindowAction::ShowAndFocus
        }),
{
    if visible {
        WindowAction::Hide
    } else {
        WindowAction::ShowAndFocus
    }
}

/// A mouse event on the tray icon.
#[derive(Debug, Clone, Copy, PartialEq, Eq, Structural)]
pub enum TrayEvent {
    Click { left_button: bool, released: bool },
    DoubleClick,
    Other,
}

/// Whether a tray icon event toggles the window: a double click, or the
/// release of a left click.
pub fn tray_event_toggles(event: TrayEvent) -> (r: bool)
    ensures
        r == match event {
            TrayEvent::DoubleClick => true,
            TrayEvent::Click { left_button, released } => left_button && released,
            TrayEvent::Other => false,
        },
{
    match event {
        TrayEvent::DoubleClick => true,
        TrayEvent::Click { left_button, released } => left_button && released,
        TrayEvent::Other => false,
    }
}

/// What choosing a tray menu item does.
#[derive(Debug, Clone, Copy, PartialEq, Eq, Structural)]
pub enum MenuAction {
    /// Show and focus the window.
    ShowWindow,
    /// Show and focus the window and go to the settings page.
    OpenSettings,
    /// Leave the application.
    Quit,
    /// Nothing.
    Nothing,
}

/// The action of the menu item with id `id`.
pub open spec fn menu_action_of(id: Seq<char>) -> MenuAction {
    if id == "show"@ {
        MenuAction::ShowWindow
    } else if id == "settings"@ {
        MenuAction::OpenSettings
    } else if id == "quit"@ {
        MenuAction::Quit
    } else {
        MenuAction::Nothing
    }
}

/// The action of the menu item with id `id`.
pub fn menu_action(id: &str) -> (r: MenuAction)
    ensures
        r == menu_action_of(id@),
{
    if str_eq(id, "show") {
        MenuAction::ShowWindow
    } else if str_eq(id, "settings") {
        MenuAction::OpenSettings
    } else if str_eq(id, "quit") {
        MenuAction::Quit
    } else {
        MenuAction::Nothing
    }
}

/// An item of the tray menu: its id, its label and its accelerator.
#[derive(Debug)]
pub struct MenuItem {
    pub id: String,
    pub label: String,
    pub accelerator: Option<String>,
}

/// A line of the tray menu: an item, or a separator.
#[derive(Debug)]
pub enum MenuLine {
    Item(MenuItem),
    Separator,
}

fn menu_item(id: &str, label: &str, accelerator: Option<&str>) -> (r: MenuLine)
    ensures
        item_is(r, id@, label@, match accelerator {
            Some(a) => Some(a@),
            None => None,
        }),
{
    let accelerator = match accelerator {
        Some(a) => Some(a.to_owned()),
        None => None,
    };
    MenuLine::Item(MenuItem { id: id.to_owned(), label: label.to_owned(), accelerator })
}

/// The line is the item `id` labelled `label`, with the accelerator
/// `accelerator` if one is given.
pub open spec fn item_is(line: MenuLine, id: Seq<char>, label: Seq<char>, accelerator: Option<Seq<char>>) -> bool {
    &&& line matches MenuLine::Item(it)
    &&& it.id@ == id
    &&& it.label@ == label
    &&& match it.accelerator {
        Some(a) => accelerator == Some(a@),
        None => accelerator is None,
    }
}

/// The tray menu: "Open Window" (Alt+Space), "Settings...", a separator,
/// and "Quit" (CmdOrCtrl+Q).
pub open spec fn is_tray_menu(lines: Seq<MenuLine>) -> bool {
    &&& lines.len() == 4
    &&& item_is(lines[0], "show"@, "Open Window"@, Some("Alt+Space"@))
    &&& item_is(lines[1], "settings"@, "Settings..."@, None)
    &&& lines[2] is Separator
    &&& item_is(lines[3], "quit"@, "Quit"@, Some("CmdOrCtrl+Q"@))
}

/// What choosing a menu line does; a separator does nothing.
pub open spec fn line_action(line: MenuLine) -> MenuAction {
    match line {
        MenuLine::Item(it) => menu_action_of(it.id@),
        MenuLine::Separator => MenuAction::Nothing,
    }
}

/// Every item of the tray menu does something, and each a different thing:
/// Open Window shows the window, Settings... opens the settings page, Quit
/// quits.
pub proof fn lemma_tray_menu_actions(lines: Seq<MenuLine>)
    requires
        is_tray_menu(lines),
    ensures
        forall|i: int|
            0 <= i < lines.len() && #[trigger] lines[i] is Item ==> line_action(lines[i])
                != MenuAction::Nothing,
        line_action(lines[0]) == MenuAction::ShowWindow,
        line_action(lines[1]) == MenuAction::OpenSettings,
        line_action(lines[3]) == MenuAction::Quit,
{
    reveal_strlit("show");
    reveal_strlit("settings");
    reveal_strlit("quit");
    assert("settings"@ != "show"@) by {
        assert("settings"@.len() != "show"@.len());
    }
    assert("quit"@ != "show"@) by {
        assert("quit"@[0] != "show"@[0]);
    }
    assert("quit"@ != "settings"@) by {
        assert("quit"@.len() != "settings"@.len());
    }
    assert forall|i: int|
        0 <= i < lines.len() && #[trigger] lines[i] is Item implies line_action(lines[i])
        != MenuAction::Nothing by {
        assert(i == 0 || i == 1 || i == 3);
    }
}

/// The lines of the tray menu, top to bottom.
pub fn tray_menu() -> (r: Vec<MenuLine>)
    ensures
        is_tray_menu(r@),
{
    let mut lines: Vec<MenuLine> = Vec::new();
    lines.push(menu_item("show", "Open Window", Some("Alt+Space")));
    lines.push(menu_item("settings", "Settings...", None));
    lines.push(MenuLine::Separator);
    lines.push(menu_item("quit", "Quit", Some("CmdOrCtrl+Q")));
    lines
}

} // verus!
