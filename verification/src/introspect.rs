//! Windows and workspaces as screencast pickers list them.

use crate::decimal::{decimal, to_decimal};
use crate::text::{chars_of, trim, trimmed};
use vstd::prelude::*;
use vstd::string::*;

verus! {

/// What a picker asks of the compositor.
#[derive(Debug, Clone, Copy, PartialEq, Eq)]
pub enum IntrospectToNiri {
    GetWindows,
}

/// What the compositor answers.
#[derive(Debug)]
pub enum NiriToIntrospect {
    Windows(OrderedWindowProperties),
}

/// A window on a workspace.
#[derive(Debug, PartialEq, Eq)]
pub struct WorkspaceWindow {
    pub id: u64,
    pub title: Option<String>,
    pub app_id: Option<String>,
}

impl Clone for WorkspaceWindow {
    fn clone(&self) -> (copy: Self)
        ensures
            copy == *self,
    {
        WorkspaceWindow {
            id: self.id,
            title: self.title.clone(),
            app_id: self.app_id.clone(),
        }
    }
}

/// What a picker shows of an entry.
#[derive(Debug, PartialEq, Eq)]
pub struct WindowProperties {
    /// Window title.
    pub title: String,
    /// Window app id.
    ///
    /// Pickers take this for the name of a desktop file.
    pub app_id: String,
}

/// Entries by their ids, in the order in which they are shown.
#[derive(Debug)]
pub struct OrderedWindowProperties(pub Vec<(u64, WindowProperties)>);

impl View for OrderedWindowProperties {
    type V = Seq<(u64, WindowProperties)>;

    open spec fn view(&self) -> Seq<(u64, WindowProperties)> {
        self.0@
    }
}

/// Where the first entry with an id is; the end, if there is none.
pub open spec fn entry_position(entries: Seq<(u64, WindowProperties)>, id: u64) -> int
    decreases entries.len(),
{
    if entries.len() == 0 || entries[0].0 == id {
        0
    } else {
        1 + entry_position(entries.skip(1), id)
    }
}

/// The first entry with an id, if there is one.
pub open spec fn entry_of(entries: Seq<(u64, WindowProperties)>, id: u64) -> Option<
    WindowProperties,
> {
    let at = entry_position(entries, id);
    if at < entries.len() {
        Some(entries[at].1)
    } else {
        None
    }
}

/// The entries after one was inserted: it takes the place of an entry with the same id, and comes
/// last otherwise.
pub open spec fn with_entry(
    entries: Seq<(u64, WindowProperties)>,
    id: u64,
    properties: WindowProperties,
) -> Seq<(u64, WindowProperties)> {
    let at = entry_position(entries, id);
    if at < entries.len() {
        entries.update(at, (id, properties))
    } else {
        entries.push((id, properties))
    }
}

proof fn entry_position_is_first(entries: Seq<(u64, WindowProperties)>, id: u64)
    ensures
        0 <= entry_position(entries, id) <= entries.len(),
        entry_position(entries, id) < entries.len() ==> entries[entry_position(entries, id)].0
            == id,
        forall|i: int|
            0 <= i < entry_position(entries, id) ==> (#[trigger] entries[i]).0 != id,
    decreases entries.len(),
{
    if entries.len() > 0 && entries[0].0 != id {
        let rest = entries.skip(1);
        entry_position_is_first(rest, id);
        assert forall|i: int| 0 <= i < entry_position(entries, id) implies (
        #[trigger] entries[i]).0 != id by {
            if i > 0 {
                assert(entries[i] == rest[i - 1]);
            }
        }
    }
}

proof fn entry_position_at(entries: Seq<(u64, WindowProperties)>, id: u64, at: int)
    requires
        0 <= at <= entries.len(),
        at < entries.len() ==> entries[at].0 == id,
        forall|i: int| 0 <= i < at ==> (#[trigger] entries[i]).0 != id,
    ensures
        entry_position(entries, id) == at,
{
    entry_position_is_first(entries, id);
    let found = entry_position(entries, id);
    if found < at {
        assert(entries[found].0 != id);
    }
}

/// An entry that was inserted is found again, all other entries are as they were and in the same
/// order, and as long as no id occurs twice, none does afterwards.
pub proof fn inserting_affects_one_entry(
    entries: Seq<(u64, WindowProperties)>,
    id: u64,
    properties: WindowProperties,
    other: u64,
)
    ensures
        entry_of(with_entry(entries, id, properties), id) == Some(properties),
        other != id ==> entry_of(with_entry(entries, id, properties), other) == entry_of(
            entries,
            other,
        ),
        forall|i: int|
            0 <= i < entries.len() ==> (#[trigger] with_entry(entries, id, properties)[i]).0
                == entries[i].0,
        entries.map_values(|entry: (u64, WindowProperties)| entry.0).no_duplicates()
            ==> with_entry(entries, id, properties).map_values(
            |entry: (u64, WindowProperties)| entry.0,
        ).no_duplicates(),
{
    let after = with_entry(entries, id, properties);
    let at = entry_position(entries, id);
    entry_position_is_first(entries, id);
    assert(forall|i: int| 0 <= i < entries.len() ==> (#[trigger] after[i]).0 == entries[i].0);
    entry_position_at(after, id, at);
    if other != id {
        entry_position_is_first(entries, other);
        let other_at = entry_position(entries, other);
        if other_at < entries.len() {
            entry_position_at(after, other, other_at);
        } else {
            entry_position_at(after, other, after.len() as int);
        }
    }
    let ids = entries.map_values(|entry: (u64, WindowProperties)| entry.0);
    let ids_after = after.map_values(|entry: (u64, WindowProperties)| entry.0);
    if ids.no_duplicates() {
        assert forall|i: int, j: int|
            0 <= i < ids_after.len() && 0 <= j < ids_after.len() && i != j implies ids_after[i]
            != ids_after[j] by {
            assert(forall|k: int| 0 <= k < entries.len() ==> ids_after[k] == ids[k]);
            if at == entries.len() {
                assert(forall|k: int| 0 <= k < entries.len() ==> (#[trigger] entries[k]).0 != id);
            }
        }
    }
}

impl OrderedWindowProperties {
    /// Starts without entries.
    pub fn new() -> (entries: OrderedWindowProperties)
        ensures
            entries@ == Seq::<(u64, WindowProperties)>::empty(),
    {
        OrderedWindowProperties(Vec::new())
    }

    fn position(&self, id: u64) -> (at: usize)
        ensures
            at == entry_position(self@, id),
            at <= self@.len(),
    {
        let mut at: usize = 0;
        while at < self.0.len() && self.0[at].0 != id
            invariant
                0 <= at <= self.0.len(),
                forall|i: int| 0 <= i < at ==> (#[trigger] self@[i]).0 != id,
            decreases self.0.len() - at,
        {
            at = at + 1;
        }
        proof {
            entry_position_at(self@, id, at as int);
        }
        at
    }

    /// Inserts an entry; it takes the place of an entry with the same id, and comes last
    /// otherwise.
    pub fn insert(&mut self, id: u64, props: WindowProperties)
        ensures
            final(self)@ == with_entry(old(self)@, id, props),
    {
        let at: usize = self.position(id);
        if at < self.0.len() {
            self.0.set(at, (id, props));
        } else {
            self.0.push((id, props));
        }
    }

    /// Finds the entry with an id.
    pub fn get(&self, id: u64) -> (props: Option<&WindowProperties>)
        ensures
            match props {
                Some(props) => entry_of(self@, id) == Some(*props),
                None => entry_of(self@, id) is None,
            },
    {
        let at: usize = self.position(id);
        if at < self.0.len() {
            Some(&self.0[at].1)
        } else {
            None
        }
    }
}

impl Default for OrderedWindowProperties {
    fn default() -> (entries: Self)
        ensures
            entries@ == Seq::<(u64, WindowProperties)>::empty(),
    {
        OrderedWindowProperties::new()
    }
}

/// The answer to a picker, given what came back from the compositor.
pub fn get_windows(reply: Option<NiriToIntrospect>) -> (answer: Result<
    OrderedWindowProperties,
    String,
>)
    ensures
        match reply {
            Some(NiriToIntrospect::Windows(windows)) => answer == Ok::<
                OrderedWindowProperties,
                String,
            >(windows),
            None => answer is Err && answer->Err_0@ == "internal error"@,
        },
{
    match reply {
        Some(NiriToIntrospect::Windows(windows)) => Ok(windows),
        None => Err("internal error".to_owned()),
    }
}

/// Where a character occurs last; before the start, if it does not occur.
pub open spec fn last_position(text: Seq<char>, c: char) -> int
    decreases text.len(),
{
    if text.len() == 0 {
        -1
    } else if text.last() == c {
        text.len() - 1
    } else {
        last_position(text.drop_last(), c)
    }
}

/// The app id without the suffix of desktop files.
pub open spec fn without_desktop_suffix(app_id: Seq<char>) -> Seq<char> {
    if app_id.len() >= 8 && app_id.skip(app_id.len() - 8) == ".desktop"@ {
        app_id.take(app_id.len() - 8)
    } else {
        app_id
    }
}

/// The part of an app id after its last dot, or all of it if nothing follows.
pub open spec fn app_id_stem(app_id: Seq<char>) -> Seq<char> {
    let base = without_desktop_suffix(app_id);
    let dot = last_position(base, '.');
    if 0 <= dot < base.len() - 1 {
        base.skip(dot + 1)
    } else {
        base
    }
}

/// How a window is called: by its title, else by its app id, else by its number.
pub open spec fn window_label(window: WorkspaceWindow) -> Seq<char> {
    if window.title is Some && trimmed(window.title->0@).len() > 0 {
        trimmed(window.title->0@)
    } else if window.app_id is Some && trimmed(window.app_id->0@).len() > 0 {
        app_id_stem(trimmed(window.app_id->0@))
    } else {
        "window "@ + decimal(window.id as nat)
    }
}

/// Gives the part of an app id that people know the application by.
pub fn workspace_window_app_id_stem<'a>(app_id: &'a str) -> (stem: &'a str)
    ensures
        stem@ == app_id_stem(app_id@),
{
    proof {
        reveal_strlit(".desktop");
    }
    let chars = chars_of(app_id);
    let suffix = chars_of(".desktop");
    let mut end: usize = chars.len();
    if chars.len() >= 8 {
        let mut i: usize = 0;
        while i < 8 && chars[chars.len() - 8 + i] == suffix[i]
            invariant
                0 <= i <= 8 <= chars.len(),
                suffix.len() == 8,
                forall|j: int| 0 <= j < i ==> chars[chars.len() - 8 + j] == #[trigger] suffix[j],
            decreases 8 - i,
        {
            i = i + 1;
        }
        proof {
            let tail = app_id@.skip(app_id@.len() - 8);
            if i == 8 {
                assert(tail =~= suffix@);
            } else {
                assert(tail[i as int] != suffix@[i as int]);
            }
        }
        if i == 8 {
            end = chars.len() - 8;
        }
    }
    let ghost base = without_desktop_suffix(app_id@);
    assert(base =~= app_id@.take(end as int));
    let mut start: usize = end;
    assert(base.take(end as int) =~= base);
    while start > 0 && chars[start - 1] != '.'
        invariant
            0 <= start <= end <= chars.len(),
            chars@ == app_id@,
            base == app_id@.take(end as int),
            last_position(base, '.') == last_position(base.take(start as int), '.'),
        decreases start,
    {
        assert(base.take(start as int).drop_last() =~= base.take(start - 1));
        start = start - 1;
    }
    // The last dot, if there is one, lies right before the start.
    let stem = if start > 0 && start < end {
        app_id.substring_char(start, end)
    } else {
        app_id.substring_char(0, end)
    };
    assert(stem@ =~= app_id_stem(app_id@));
    stem
}

/// Gives the name that a window goes by.
pub fn workspace_window_label(window: &WorkspaceWindow) -> (label: String)
    ensures
        label@ == window_label(*window),
{
    match &window.title {
        Some(title) => {
            let title = trim(title.as_str());
            if !title.is_empty() {
                return title.to_owned();
            }
        },
        None => {},
    }
    match &window.app_id {
        Some(app_id) => {
            let app_id = trim(app_id.as_str());
            if !app_id.is_empty() {
                return workspace_window_app_id_stem(app_id).to_owned();
            }
        },
        None => {},
    }
    "window ".to_owned().concat(to_decimal(window.id).as_str())
}

/// Where the first window with an id is; the end, if there is none.
pub open spec fn window_position(windows: Seq<WorkspaceWindow>, id: u64) -> int
    decreases windows.len(),
{
    if windows.len() == 0 || windows[0].id == id {
        0
    } else {
        1 + window_position(windows.skip(1), id)
    }
}

/// The windows with the active one, if it is among them, brought to the front.
pub open spec fn active_first(windows: Seq<WorkspaceWindow>, active: Option<u64>) -> Seq<
    WorkspaceWindow,
> {
    if active is Some && window_position(windows, active->0) < windows.len() {
        let at = window_position(windows, active->0);
        seq![windows[at]] + windows.remove(at)
    } else {
        windows
    }
}

/// Texts with commas between them.
pub open spec fn joined(texts: Seq<Seq<char>>) -> Seq<char>
    decreases texts.len(),
{
    if texts.len() == 0 {
        Seq::empty()
    } else if texts.len() == 1 {
        texts[0]
    } else {
        joined(texts.drop_last()) + ", "@ + texts.last()
    }
}

/// The names of the first three windows, or of as many as there are.
pub open spec fn shown_labels(windows: Seq<WorkspaceWindow>) -> Seq<Seq<char>> {
    windows.take(
        if windows.len() < 3 {
            windows.len() as int
        } else {
            3
        },
    ).map_values(|window: WorkspaceWindow| window_label(window))
}

/// What is on a workspace, in short.
pub open spec fn workspace_summary(windows: Seq<WorkspaceWindow>) -> Seq<char> {
    let labels = joined(shown_labels(windows));
    if labels.len() == 0 {
        "empty"@
    } else if windows.len() > 3 {
        labels + ", ..."@
    } else {
        labels
    }
}

/// A text around a name, if there is one and it is not empty.
pub open spec fn around(before: Seq<char>, name: Option<&str>, after: Seq<char>) -> Seq<char> {
    match name {
        Some(name) => if name@.len() > 0 {
            before + name@ + after
        } else {
            Seq::empty()
        },
        None => Seq::empty(),
    }
}

/// The title under which a workspace can be cast.
pub open spec fn cast_title(
    idx: u8,
    name: Option<&str>,
    output_name: Option<&str>,
    active_window_id: Option<u64>,
    windows: Seq<WorkspaceWindow>,
) -> Seq<char> {
    "Workspace "@ + decimal(idx as nat) + around(" ("@, name, ")"@) + around(
        " on "@,
        output_name,
        Seq::empty(),
    ) + " - "@ + workspace_summary(active_first(windows, active_window_id))
}

proof fn window_position_at(windows: Seq<WorkspaceWindow>, id: u64, at: int)
    requires
        0 <= at <= windows.len(),
        at < windows.len() ==> windows[at].id == id,
        forall|i: int| 0 <= i < at ==> (#[trigger] windows[i]).id != id,
    ensures
        window_position(windows, id) == at,
    decreases windows.len(),
{
    if at > 0 {
        let rest = windows.skip(1);
        assert(windows[0].id != id);
        assert forall|i: int| 0 <= i < at - 1 implies (#[trigger] rest[i]).id != id by {
            assert(windows[i + 1].id != id);
        }
        window_position_at(rest, id, at - 1);
    }
}

fn bring_active_first<'a>(windows: &'a [WorkspaceWindow], active: Option<u64>) -> (ordered: Vec<
    &'a WorkspaceWindow,
>)
    ensures
        ordered@.map_values(|window: &WorkspaceWindow| *window) == active_first(windows@, active),
{
    let mut at: usize = windows.len();
    match active {
        Some(id) => {
            at = 0;
            while at < windows.len() && windows[at].id != id
                invariant
                    0 <= at <= windows@.len(),
                    forall|i: int| 0 <= i < at ==> (#[trigger] windows@[i]).id != id,
                decreases windows@.len() - at,
            {
                at = at + 1;
            }
            proof {
                window_position_at(windows@, id, at as int);
            }
        },
        None => {},
    }
    let ghost expected = active_first(windows@, active);
    let mut ordered: Vec<&'a WorkspaceWindow> = Vec::new();
    if at < windows.len() {
        ordered.push(&windows[at]);
    }
    for i in 0..windows.len()
        invariant
            0 <= at <= windows@.len(),
            expected == if at < windows@.len() {
                seq![windows@[at as int]] + windows@.remove(at as int)
            } else {
                windows@
            },
            ordered.len() == i + (if at < windows@.len() && i <= at {
                1int
            } else {
                0int
            }),
            forall|j: int| 0 <= j < ordered.len() ==> *(#[trigger] ordered[j]) == expected[j],
    {
        if i != at {
            ordered.push(&windows[i]);
        }
    }
    assert(ordered@.map_values(|window: &WorkspaceWindow| *window) =~= expected);
    ordered
}

fn summarize(windows: &Vec<&WorkspaceWindow>) -> (summary: String)
    ensures
        summary@ == workspace_summary(windows@.map_values(|window: &WorkspaceWindow| *window)),
{
    let ghost all = windows@.map_values(|window: &WorkspaceWindow| *window);
    let ghost labels = shown_labels(all);
    let shown: usize = if windows.len() < 3 {
        windows.len()
    } else {
        3
    };
    let mut summary = String::new();
    for i in 0..shown
        invariant
            shown <= windows.len(),
            all == windows@.map_values(|window: &WorkspaceWindow| *window),
            labels == shown_labels(all),
            labels.len() == shown,
            summary@ == joined(labels.take(i as int)),
    {
        proof {
            assert(labels.take(i + 1).drop_last() =~= labels.take(i as int));
            assert(labels.take(i + 1).last() == window_label(*windows[i as int]));
        }
        let label = workspace_window_label(windows[i]);
        if i > 0 {
            summary.append(", ");
        }
        summary.append(label.as_str());
        assert(summary@ =~= joined(labels.take(i + 1)));
    }
    assert(labels.take(shown as int) =~= labels);
    if summary.as_str().is_empty() {
        return "empty".to_owned();
    }
    if windows.len() > 3 {
        summary.append(", ...");
    }
    summary
}

/// Gives the title under which a workspace can be cast: its number and name, its output, and the
/// names of up to three windows, the active one first.
pub fn workspace_cast_title(
    idx: u8,
    name: Option<&str>,
    output_name: Option<&str>,
    active_window_id: Option<u64>,
    windows: &[WorkspaceWindow],
) -> (title: String)
    ensures
        title@ == cast_title(idx, name, output_name, active_window_id, windows@),
{
    let mut title = "Workspace ".to_owned().concat(to_decimal(idx as u64).as_str());
    match name {
        Some(name) => {
            if !name.is_empty() {
                title.append(" (");
                title.append(name);
                title.append(")");
            }
        },
        None => {},
    }
    assert(title@ =~= "Workspace "@ + decimal(idx as nat) + around(" ("@, name, ")"@));
    match output_name {
        Some(output_name) => {
            if !output_name.is_empty() {
                title.append(" on ");
                title.append(output_name);
            }
        },
        None => {},
    }
    assert(title@ =~= "Workspace "@ + decimal(idx as nat) + around(" ("@, name, ")"@) + around(
        " on "@,
        output_name,
        Seq::empty(),
    ));
    let ordered = bring_active_first(windows, active_window_id);
    let summary = summarize(&ordered);
    title.append(" - ");
    title.append(summary.as_str());
    title
}

/// Bringing the active window to the front keeps all windows, and the order of the others; the
/// window in front is the active one, if it is among them.
pub proof fn active_window_comes_first(windows: Seq<WorkspaceWindow>, active: u64, at: int)
    requires
        0 <= at < windows.len(),
        windows[at].id == active,
        forall|i: int| 0 <= i < at ==> (#[trigger] windows[i]).id != active,
    ensures
        active_first(windows, Some(active)).first() == windows[at],
        active_first(windows, Some(active)).skip(1) == windows.remove(at),
        active_first(windows, Some(active)).to_multiset() == windows.to_multiset(),
        shown_labels(active_first(windows, Some(active))).first() == window_label(windows[at]),
{
    window_position_at(windows, active, at);
    let after = active_first(windows, Some(active));
    assert(after.skip(1) =~= windows.remove(at));
    vstd::seq_lib::to_multiset_remove(windows, at);
    vstd::seq_lib::to_multiset_remove(after, 0);
    assert(after.remove(0) =~= windows.remove(at));
    broadcast use vstd::seq_lib::group_to_multiset_ensures;

    assert(windows.to_multiset().contains(windows[at])) by {
        vstd::seq_lib::to_multiset_contains(windows, windows[at]);
    }
    assert(after.to_multiset().contains(after[0])) by {
        vstd::seq_lib::to_multiset_contains(after, after[0]);
    }
    assert(windows.to_multiset() =~= windows.to_multiset().remove(windows[at]).insert(windows[at]));
    assert(after.to_multiset() =~= after.to_multiset().remove(after[0]).insert(after[0]));
}

/// A title names at most three windows.
pub proof fn title_names_at_most_three(windows: Seq<WorkspaceWindow>)
    ensures
        shown_labels(windows).len() <= 3,
        shown_labels(windows).len() <= windows.len(),
        windows.len() == 0 ==> workspace_summary(windows) == "empty"@,
{
}

/// Without an active window among them, the windows keep their order.
pub proof fn windows_keep_their_order_without_an_active_one(
    windows: Seq<WorkspaceWindow>,
    active: u64,
)
    requires
        forall|i: int| 0 <= i < windows.len() ==> (#[trigger] windows[i]).id != active,
    ensures
        active_first(windows, Some(active)) == windows,
        active_first(windows, None) == windows,
{
    window_position_at(windows, active, windows.len() as int);
}

/// A new entry comes last, and one with a known id adds none.
pub proof fn new_entries_come_last(
    entries: Seq<(u64, WindowProperties)>,
    id: u64,
    properties: WindowProperties,
)
    ensures
        (forall|i: int| 0 <= i < entries.len() ==> (#[trigger] entries[i]).0 != id) ==> with_entry(
            entries,
            id,
            properties,
        ) == entries.push((id, properties)) && entry_of(entries, id) is None,
        (exists|i: int| 0 <= i < entries.len() && (#[trigger] entries[i]).0 == id) ==> with_entry(
            entries,
            id,
            properties,
        ).len() == entries.len() && entry_of(entries, id) is Some,
{
    entry_position_is_first(entries, id);
    if forall|i: int| 0 <= i < entries.len() ==> (#[trigger] entries[i]).0 != id {
        entry_position_at(entries, id, entries.len() as int);
    }
    if exists|i: int| 0 <= i < entries.len() && (#[trigger] entries[i]).0 == id {
        let at = choose|i: int| 0 <= i < entries.len() && (#[trigger] entries[i]).0 == id;
        if entry_position(entries, id) == entries.len() {
            assert(entries[at].0 != id);
        }
    }
}

proof fn last_position_at(text: Seq<char>, c: char, at: int)
    requires
        -1 <= at < text.len(),
        at >= 0 ==> text[at] == c,
        forall|i: int| at < i < text.len() ==> #[trigger] text[i] != c,
    ensures
        last_position(text, c) == at,
    decreases text.len(),
{
    if text.len() > 0 && at < text.len() - 1 {
        assert(text[text.len() - 1] != c);
        last_position_at(text.drop_last(), c, at);
    }
}

/// The stem of an app id is what follows its last dot, and all of it if it has no dot or nothing
/// follows; the suffix of desktop files does not count, where there is one.
pub proof fn stem_follows_the_last_dot(domain: Seq<char>, name: Seq<char>)
    requires
        name.len() > 0,
        !name.contains('.'),
    ensures
        app_id_stem(name) == name,
        app_id_stem(name + ".desktop"@) == name,
        app_id_stem(domain.push('.') + name + ".desktop"@) == name,
        name != "desktop"@ ==> app_id_stem(domain.push('.') + name) == name,
        app_id_stem(name.push('.') + ".desktop"@) == name.push('.'),
        app_id_stem(name.push('.')) == name.push('.'),
{
    reveal_strlit(".desktop");
    reveal_strlit("desktop");
    let suffix = ".desktop"@;
    let full = domain.push('.') + name;
    assert forall|i: int| 0 <= i < name.len() implies name[i] != '.' by {
        assert(name.contains(name[i]));
    }
    // The bare name.
    if name.len() >= 8 {
        assert(name.skip(name.len() - 8)[0] != '.');
    }
    last_position_at(name, '.', -1);
    // With the suffix.
    let named = name + suffix;
    assert(named.skip(named.len() - 8) =~= suffix);
    assert(named.take(named.len() - 8) =~= name);
    let suffixed = full + suffix;
    assert(domain.push('.') + name + suffix =~= suffixed);
    assert(suffixed.skip(suffixed.len() - 8) =~= suffix);
    assert(suffixed.take(suffixed.len() - 8) =~= full);
    assert forall|i: int| domain.len() < i < full.len() implies #[trigger] full[i] != '.' by {
        assert(full[i] == name[i - domain.len() - 1]);
    }
    last_position_at(full, '.', domain.len() as int);
    assert(full.skip(domain.len() as int + 1) =~= name);
    // With a domain.
    if name != "desktop"@ {
        assert(full.len() >= 8 ==> full.skip(full.len() - 8) != suffix) by {
            if full.len() >= 8 && full.skip(full.len() - 8) == suffix {
                let tail = full.skip(full.len() - 8);
                assert(tail[0] == '.');
                assert(full[full.len() - 8] == '.');
                assert(name.len() <= 7);
                assert(name.len() == 7) by {
                    if name.len() < 7 {
                        let at = 7 - name.len();
                        assert(tail[at] == full[domain.len() as int]);
                        assert(full[domain.len() as int] == '.');
                        assert(suffix[at] != '.');
                    }
                }
                assert forall|i: int| 0 <= i < 7 implies name[i] == "desktop"@[i] by {
                    assert(name[i] == tail[i + 1]);
                }
                assert(name =~= "desktop"@);
            }
        }
    }
    // With nothing after the dot.
    let dotted = name.push('.');
    assert((dotted + suffix).skip((dotted + suffix).len() - 8) =~= suffix);
    assert((dotted + suffix).take((dotted + suffix).len() - 8) =~= dotted);
    last_position_at(dotted, '.', name.len() as int);
    if dotted.len() >= 8 {
        assert(dotted.skip(dotted.len() - 8)[7] == '.');
        assert(suffix[7] == 'p');
    }
}

/// A window goes by its title, without the white space around it; where that leaves nothing, by the
/// stem of its app id; and where that has nothing either, by its number.
pub proof fn windows_go_by_title_app_id_or_number(window: WorkspaceWindow)
    ensures
        window.title is Some && trimmed(window.title->0@).len() > 0 ==> window_label(window)
            == trimmed(window.title->0@),
        (window.title is None || trimmed(window.title->0@).len() == 0) && window.app_id is Some
            && trimmed(window.app_id->0@).len() > 0 ==> window_label(window) == app_id_stem(
            trimmed(window.app_id->0@),
        ),
        (window.title is None || trimmed(window.title->0@).len() == 0) && (window.app_id is None
            || trimmed(window.app_id->0@).len() == 0) ==> window_label(window) == "window "@
            + decimal(window.id as nat),
{
}

/// Texts are joined by commas, one between each two.
pub proof fn joining_puts_commas_between(texts: Seq<Seq<char>>, last: Seq<char>)
    ensures
        joined(Seq::empty()) == Seq::<char>::empty(),
        joined(seq![last]) == last,
        texts.len() > 0 ==> joined(texts.push(last)) == joined(texts) + ", "@ + last,
{
    assert(texts.push(last).drop_last() =~= texts);
}

/// A workspace is summed up by the names of its first three windows in their order, with dots after
/// them if there are more; without windows it is empty.
pub proof fn summary_names_the_first_windows(windows: Seq<WorkspaceWindow>, at: int)
    ensures
        shown_labels(windows).len() == if windows.len() < 3 {
            windows.len() as int
        } else {
            3
        },
        0 <= at < shown_labels(windows).len() ==> shown_labels(windows)[at] == window_label(
            windows[at],
        ),
        windows.len() == 0 ==> workspace_summary(windows) == "empty"@,
        0 < windows.len() <= 3 && joined(shown_labels(windows)).len() > 0 ==> workspace_summary(
            windows,
        ) == joined(shown_labels(windows)),
        windows.len() > 3 && joined(shown_labels(windows)).len() > 0 ==> workspace_summary(windows)
            == joined(shown_labels(windows)) + ", ..."@,
        joined(shown_labels(windows)).len() == 0 ==> workspace_summary(windows) == "empty"@,
{
}

/// The title of a workspace tells its number, then its name in brackets and its output where it has
/// them, and then sums up its windows with the active one first.
pub proof fn titles_tell_number_name_output_and_windows(
    idx: u8,
    name: &str,
    output: &str,
    active: Option<u64>,
    windows: Seq<WorkspaceWindow>,
)
    requires
        name@.len() > 0,
        output@.len() > 0,
    ensures
        ({
            let number = "Workspace "@ + decimal(idx as nat);
            let summary = workspace_summary(active_first(windows, active));
            &&& cast_title(idx, None, None, active, windows) == number + " - "@ + summary
            &&& cast_title(idx, Some(name), None, active, windows) == number + " ("@ + name@ + ")"@
                + " - "@ + summary
            &&& cast_title(idx, None, Some(output), active, windows) == number + " on "@ + output@
                + " - "@ + summary
            &&& cast_title(idx, Some(name), Some(output), active, windows) == number + " ("@ + name@
                + ")"@ + " on "@ + output@ + " - "@ + summary
        }),
{
    let number = "Workspace "@ + decimal(idx as nat);
    let summary = workspace_summary(active_first(windows, active));
    assert(cast_title(idx, None, None, active, windows) =~= number + " - "@ + summary);
    assert(cast_title(idx, Some(name), None, active, windows) =~= number + " ("@ + name@ + ")"@
        + " - "@ + summary);
    assert(cast_title(idx, None, Some(output), active, windows) =~= number + " on "@ + output@
        + " - "@ + summary);
    assert(cast_title(idx, Some(name), Some(output), active, windows) =~= number + " ("@ + name@
        + ")"@ + " on "@ + output@ + " - "@ + summary);
}

/// An empty name or output is left out of a title like a missing one.
pub proof fn empty_names_are_left_out(
    idx: u8,
    name: Option<&str>,
    output: Option<&str>,
    empty: &str,
    active: Option<u64>,
    windows: Seq<WorkspaceWindow>,
)
    requires
        empty@.len() == 0,
    ensures
        cast_title(idx, Some(empty), output, active, windows) == cast_title(
            idx,
            None,
            output,
            active,
            windows,
        ),
        cast_title(idx, name, Some(empty), active, windows) == cast_title(
            idx,
            name,
            None,
            active,
            windows,
        ),
{
}

} // verus!
