//! The service tweaks of the tweaks page: which tweaks exist, when a tweak
//! counts as enabled, which command toggles it, and the steps that a toggle
//! goes through.
use vstd::prelude::*;

use crate::text::strings_view;
use crate::units::SystemdUnits;

verus! {

/// The action type of tweaks whose units are per-user units.
pub open spec fn user_service_type() -> Seq<char> {
    "user_service"@
}

/// Whether a tweak of the given action type acts on per-user units.
pub open spec fn is_user_scope(action_type: Seq<char>) -> bool {
    action_type == user_service_type()
}

/// The pieces of `s` between its space characters, as `str::split(' ')`
/// yields them: there is one more piece than there are spaces, and pieces
/// may be empty.
pub open spec fn split_spaces(s: Seq<char>) -> Seq<Seq<char>>
    decreases s.len(),
{
    if s.len() == 0 {
        seq![Seq::<char>::empty()]
    } else {
        let rest = split_spaces(s.drop_last());
        if s.last() == ' ' {
            rest.push(Seq::<char>::empty())
        } else {
            rest.update(rest.len() - 1, rest.last().push(s.last()))
        }
    }
}

/// Whether every space-separated piece of `action_data` is an enabled unit.
pub open spec fn all_units_enabled(enabled: Seq<Seq<char>>, action_data: Seq<char>) -> bool {
    forall|k: int|
        0 <= k < split_spaces(action_data).len() ==> enabled.contains(
            #[trigger] split_spaces(action_data)[k],
        )
}

/// A string without spaces is a single piece.
pub proof fn lemma_split_spaces_single(s: Seq<char>)
    requires
        !s.contains(' '),
    ensures
        split_spaces(s) == seq![s],
    decreases s.len(),
{
    if s.len() == 0 {
        assert(s =~= Seq::<char>::empty());
        assert(split_spaces(s) =~= seq![s]);
    } else {
        let init = s.drop_last();
        assert(!init.contains(' ')) by {
            if init.contains(' ') {
                let k = choose|k: int| 0 <= k < init.len() && init[k] == ' ';
                assert(s[k] == ' ');
            }
        }
        lemma_split_spaces_single(init);
        assert(s[s.len() - 1] != ' ');
        assert(init.push(s.last()) =~= s);
        let rest = split_spaces(init);
        assert(rest.len() == 1 && rest.last() == init);
        assert(split_spaces(s) == rest.update(0, init.push(s.last())));
        assert(split_spaces(s) =~= seq![s]);
    }
}

/// For a tweak of one unit (no space in its `action_data`), the check box
/// starts checked in a unit set exactly when a toggle against that set
/// counts the tweak as enabled.
pub proof fn lemma_single_unit_tweak_state(enabled: Seq<Seq<char>>, action_data: Seq<char>)
    requires
        !action_data.contains(' '),
    ensures
        all_units_enabled(enabled, action_data) == enabled.contains(action_data),
{
    lemma_split_spaces_single(action_data);
    if enabled.contains(action_data) {
        assert forall|k: int| 0 <= k < split_spaces(action_data).len() implies enabled.contains(
            #[trigger] split_spaces(action_data)[k],
        ) by {
            assert(k == 0);
        }
    } else {
        assert(split_spaces(action_data)[0] == action_data);
    }
}

/// `split_spaces` never yields an empty list of pieces.
proof fn lemma_split_spaces_nonempty(s: Seq<char>)
    ensures
        split_spaces(s).len() >= 1,
    decreases s.len(),
{
    if s.len() > 0 {
        lemma_split_spaces_nonempty(s.drop_last());
    }
}

/// Splitting `x`, a space and `y`, where `x` has no space, gives `x`
/// followed by the pieces of `y`.
proof fn lemma_split_spaces_prefix(x: Seq<char>, y: Seq<char>)
    requires
        !x.contains(' '),
    ensures
        split_spaces(x + seq![' '] + y) == seq![x] + split_spaces(y),
    decreases y.len(),
{
    let s = x + seq![' '] + y;
    lemma_split_spaces_single(x);
    if y.len() == 0 {
        assert(s.drop_last() =~= x);
        assert(y =~= Seq::<char>::empty());
        assert(split_spaces(y) =~= seq![Seq::<char>::empty()]);
        assert(split_spaces(s) =~= seq![x] + split_spaces(y));
    } else {
        let y0 = y.drop_last();
        assert(s.drop_last() =~= x + seq![' '] + y0);
        assert(s.last() == y.last());
        lemma_split_spaces_prefix(x, y0);
        lemma_split_spaces_nonempty(y0);
        let rest = split_spaces(y0);
        if y.last() == ' ' {
            assert(split_spaces(s) =~= (seq![x] + rest).push(Seq::<char>::empty()));
            assert(split_spaces(y) == rest.push(Seq::<char>::empty()));
            assert(split_spaces(s) =~= seq![x] + split_spaces(y));
        } else {
            let full = seq![x] + rest;
            assert(full.last() == rest.last());
            assert(split_spaces(s) == full.update(full.len() - 1, rest.last().push(y.last())));
            assert(split_spaces(y) == rest.update(rest.len() - 1, rest.last().push(y.last())));
            assert(split_spaces(s) =~= seq![x] + split_spaces(y));
        }
    }
}

/// A tweak whose units are `x`, a space and then `y` (with no space in
/// `x`) counts as enabled exactly when the unit `x` is enabled and the
/// tweak of units `y` counts as enabled. With
/// [`lemma_single_unit_tweak_state`] this fixes the answer on every input:
/// every space-separated unit counts, the first and the last included.
pub proof fn lemma_units_enabled_first_and_rest(enabled: Seq<Seq<char>>, x: Seq<char>, y: Seq<char>)
    requires
        !x.contains(' '),
    ensures
        all_units_enabled(enabled, x + seq![' '] + y) == (enabled.contains(x) && all_units_enabled(
            enabled,
            y,
        )),
{
    lemma_split_spaces_prefix(x, y);
    let whole = split_spaces(x + seq![' '] + y);
    let rest = split_spaces(y);
    assert(whole[0] == x);
    assert(forall|k: int| 0 <= k < rest.len() ==> whole[k + 1] == rest[k]);
    if enabled.contains(x) && all_units_enabled(enabled, y) {
        assert forall|k: int| 0 <= k < whole.len() implies enabled.contains(#[trigger] whole[k]) by {
            if k > 0 {
                assert(whole[k] == rest[k - 1]);
            }
        }
    }
    if all_units_enabled(enabled, x + seq![' '] + y) {
        assert forall|k: int| 0 <= k < rest.len() implies enabled.contains(#[trigger] rest[k]) by {
            assert(whole[k + 1] == rest[k]);
        }
    }
}

/// Whether the tweak whose units are `action_data` counts as enabled in
/// `units`: every space-separated piece of it is an enabled unit.
pub fn is_action_enabled(units: &SystemdUnits, action_data: &str) -> (enabled: bool)
    ensures
        enabled == all_units_enabled(units.enabled(), action_data@),
{
    let n = action_data.unicode_len();
    let ghost s = action_data@;
    let ghost mut done: Seq<Seq<char>> = Seq::empty();
    let mut all = true;
    let mut start: usize = 0;
    let mut k: usize = 0;
    assert(s.take(0) =~= Seq::<char>::empty());
    assert(s.subrange(0, 0) =~= Seq::<char>::empty());
    assert(split_spaces(s.take(0)) =~= done.push(s.subrange(0, 0)));
    while k < n
        invariant
            n == s.len(),
            s == action_data@,
            start <= k <= n,
            split_spaces(s.take(k as int)) == done.push(s.subrange(start as int, k as int)),
            all == (forall|j: int| 0 <= j < done.len() ==> units.enabled().contains(#[trigger] done[j])),
        decreases n - k,
    {
        let c = action_data.get_char(k);
        assert(s.take(k + 1).drop_last() =~= s.take(k as int));
        assert(s.take(k + 1).last() == c);
        if c == ' ' {
            let piece = action_data.substring_char(start, k);
            let found = units.is_enabled(piece);
            proof {
                let old_done = done;
                done = done.push(piece@);
                assert(piece@ == s.subrange(start as int, k as int));
                assert(split_spaces(s.take(k + 1)) =~= done.push(Seq::<char>::empty()));
                assert(s.subrange(k + 1, k + 1) =~= Seq::<char>::empty());
                assert(forall|j: int| 0 <= j < old_done.len() ==> done[j] == old_done[j]);
                assert(done[old_done.len() as int] == piece@);
            }
            all = all && found;
            start = k + 1;
        } else {
            assert(s.subrange(start as int, k + 1) =~= s.subrange(start as int, k as int).push(c));
        }
        k = k + 1;
    }
    let piece = action_data.substring_char(start, n);
    let found = units.is_enabled(piece);
    proof {
        assert(s.take(n as int) =~= s);
        let pieces = split_spaces(s);
        assert(pieces == done.push(piece@));
        if all && found {
            assert forall|j: int| 0 <= j < pieces.len() implies units.enabled().contains(
                #[trigger] pieces[j],
            ) by {
                if j < done.len() {
                    assert(pieces[j] == done[j]);
                }
            }
        } else if !found {
            assert(pieces[done.len() as int] == piece@);
        } else {
            let j = choose|j: int| 0 <= j < done.len() && !units.enabled().contains(#[trigger] done[j]);
            assert(pieces[j] == done[j]);
        }
    }
    all && found
}

/// The shell command that toggles a tweak: it enables the units when the
/// tweak is not enabled and disables them when it is, per user with
/// `systemctl --user` or system-wide through `pkexec`.
pub open spec fn toggle_command_text(user: bool, enabled: bool, action_data: Seq<char>) -> Seq<char> {
    if !enabled {
        if user {
            "systemctl --user enable --now --force "@ + action_data
        } else {
            "/sbin/pkexec bash -c \"systemctl enable --now --force "@ + action_data + "\""@
        }
    } else if user {
        "systemctl --user disable --now "@ + action_data
    } else {
        "/sbin/pkexec bash -c \"systemctl disable --now "@ + action_data + "\""@
    }
}

/// The command, run in a terminal, that installs a missing package.
pub open spec fn install_command_text(package: Seq<char>) -> Seq<char> {
    "pacman -S "@ + package
}

/// Whether a tweak of the given action type acts on per-user units.
pub fn is_user_service(action_type: &str) -> (user: bool)
    ensures
        user == is_user_scope(action_type@),
{
    action_type.to_owned() == "user_service".to_owned()
}

/// The shell command that toggles the units `action_data`, given whether
/// they are enabled now.
pub fn service_toggle_command(user: bool, enabled: bool, action_data: &str) -> (command: String)
    ensures
        command@ == toggle_command_text(user, enabled, action_data@),
{
    if !enabled {
        if user {
            let mut command = "systemctl --user enable --now --force ".to_owned();
            command.append(action_data);
            command
        } else {
            let mut command = "/sbin/pkexec bash -c \"systemctl enable --now --force ".to_owned();
            command.append(action_data);
            command.append("\"");
            command
        }
    } else if user {
        let mut command = "systemctl --user disable --now ".to_owned();
        command.append(action_data);
        command
    } else {
        let mut command = "/sbin/pkexec bash -c \"systemctl disable --now ".to_owned();
        command.append(action_data);
        command.append("\"");
        command
    }
}

/// The command that installs `package`.
pub fn install_command(package: &str) -> (command: String)
    ensures
        command@ == install_command_text(package@),
{
    let mut command = "pacman -S ".to_owned();
    command.append(package);
    command
}

/// Whether a tweak's check box starts checked: its `action_data`, taken as
/// a whole, is among the enabled units of either set.
pub fn tweak_initially_active(
    local: &SystemdUnits,
    global: &SystemdUnits,
    action_data: &str,
) -> (active: bool)
    ensures
        active == (local.enabled().contains(action_data@) || global.enabled().contains(
            action_data@,
        )),
{
    local.is_enabled(action_data) || global.is_enabled(action_data)
}

/// A service tweak: the title shown next to its check box, the units it
/// toggles (separated by spaces), its action type (`"user_service"` or
/// `"service"`), the package that provides it (empty when none needs to be
/// installed) and the translation key of its tooltip.
pub struct Tweak {
    pub title: String,
    pub action_data: String,
    pub action_type: String,
    pub package: String,
    pub tooltip_key: String,
}

/// The abstract value of a [`Tweak`].
pub struct TweakView {
    pub title: Seq<char>,
    pub action_data: Seq<char>,
    pub action_type: Seq<char>,
    pub package: Seq<char>,
    pub tooltip_key: Seq<char>,
}

impl View for Tweak {
    type V = TweakView;

    open spec fn view(&self) -> TweakView {
        TweakView {
            title: self.title@,
            action_data: self.action_data@,
            action_type: self.action_type@,
            package: self.package@,
            tooltip_key: self.tooltip_key@,
        }
    }
}

/// Builds a tweak from its strings.
pub open spec fn tweak_entry(
    title: &str,
    action_data: &str,
    action_type: &str,
    package: &str,
    tooltip_key: &str,
) -> TweakView {
    TweakView {
        title: title@,
        action_data: action_data@,
        action_type: action_type@,
        package: package@,
        tooltip_key: tooltip_key@,
    }
}

/// The `i`-th tweak of the page.
pub open spec fn tweak_at(i: int) -> TweakView {
    if i == 0 {
        tweak_entry("Profile-sync-daemon", "psd.service", "user_service", "profile-sync-daemon", "tweak-psd-tooltip")
    } else if i == 1 {
        tweak_entry("Systemd-oomd", "systemd-oomd.service", "service", "", "tweak-oomd-tooltip")
    } else if i == 2 {
        tweak_entry("Bpftune", "bpftune.service", "service", "bpftune-git", "tweak-bpftune-tooltip")
    } else if i == 3 {
        tweak_entry("Bluetooth", "bluetooth.service", "service", "bluez", "tweak-bluetooth-tooltip")
    } else if i == 4 {
        tweak_entry("Ananicy Cpp", "ananicy-cpp.service", "service", "ananicy-cpp", "tweak-ananicycpp-tooltip")
    } else {
        tweak_entry("Cachy Update", "arch-update.timer arch-update-tray.service", "user_service", "cachy-update", "tweak-cachyupdate-tooltip")
    }
}

/// The tweaks of the page, in the order in which they are created.
pub open spec fn tweak_table() -> Seq<TweakView> {
    Seq::new(6, |i: int| tweak_at(i))
}

impl Tweak {
    /// A tweak made of the given strings.
    pub fn from_strs(
        title: &str,
        action_data: &str,
        action_type: &str,
        package: &str,
        tooltip_key: &str,
    ) -> (tweak: Tweak)
        ensures
            tweak@ == tweak_entry(title, action_data, action_type, package, tooltip_key),
    {
        Tweak {
            title: title.to_owned(),
            action_data: action_data.to_owned(),
            action_type: action_type.to_owned(),
            package: package.to_owned(),
            tooltip_key: tooltip_key.to_owned(),
        }
    }
}

/// The tweaks offered on the page, in the order in which they are created.
pub fn tweak_definitions() -> (tweaks: Vec<Tweak>)
    ensures
        tweaks@.map_values(|t: Tweak| t@) == tweak_table(),
{
    let mut tweaks: Vec<Tweak> = Vec::new();
    tweaks.push(Tweak::from_strs("Profile-sync-daemon", "psd.service", "user_service", "profile-sync-daemon", "tweak-psd-tooltip"));
    tweaks.push(Tweak::from_strs("Systemd-oomd", "systemd-oomd.service", "service", "", "tweak-oomd-tooltip"));
    tweaks.push(Tweak::from_strs("Bpftune", "bpftune.service", "service", "bpftune-git", "tweak-bpftune-tooltip"));
    tweaks.push(Tweak::from_strs("Bluetooth", "bluetooth.service", "service", "bluez", "tweak-bluetooth-tooltip"));
    tweaks.push(Tweak::from_strs("Ananicy Cpp", "ananicy-cpp.service", "service", "ananicy-cpp", "tweak-ananicycpp-tooltip"));
    tweaks.push(Tweak::from_strs("Cachy Update", "arch-update.timer arch-update-tray.service", "user_service", "cachy-update", "tweak-cachyupdate-tooltip"));
    assert(tweaks@.map_values(|t: Tweak| t@) =~= tweak_table());
    tweaks
}

/// The four toggle commands: a tweak that is not enabled is enabled with
/// `--now --force`, an enabled one is disabled with `--now`; per-user units
/// go through `systemctl --user`, system-wide ones through `pkexec`.
pub proof fn lemma_toggle_commands(action_data: Seq<char>)
    ensures
        toggle_command_text(true, false, action_data) == "systemctl --user enable --now --force "@
            + action_data,
        toggle_command_text(true, true, action_data) == "systemctl --user disable --now "@
            + action_data,
        toggle_command_text(false, false, action_data)
            == "/sbin/pkexec bash -c \"systemctl enable --now --force "@ + action_data + "\""@,
        toggle_command_text(false, true, action_data)
            == "/sbin/pkexec bash -c \"systemctl disable --now "@ + action_data + "\""@,
        install_command_text(action_data) == "pacman -S "@ + action_data,
{
}

/// The tweaks of the page, entry by entry.
pub proof fn lemma_tweak_table_entries()
    ensures
        tweak_table().len() == 6,
        tweak_table()[0] == (TweakView { title: "Profile-sync-daemon"@, action_data: "psd.service"@, action_type: "user_service"@, package: "profile-sync-daemon"@, tooltip_key: "tweak-psd-tooltip"@ }),
        tweak_table()[1] == (TweakView { title: "Systemd-oomd"@, action_data: "systemd-oomd.service"@, action_type: "service"@, package: ""@, tooltip_key: "tweak-oomd-tooltip"@ }),
        tweak_table()[2] == (TweakView { title: "Bpftune"@, action_data: "bpftune.service"@, action_type: "service"@, package: "bpftune-git"@, tooltip_key: "tweak-bpftune-tooltip"@ }),
        tweak_table()[3] == (TweakView { title: "Bluetooth"@, action_data: "bluetooth.service"@, action_type: "service"@, package: "bluez"@, tooltip_key: "tweak-bluetooth-tooltip"@ }),
        tweak_table()[4] == (TweakView { title: "Ananicy Cpp"@, action_data: "ananicy-cpp.service"@, action_type: "service"@, package: "ananicy-cpp"@, tooltip_key: "tweak-ananicycpp-tooltip"@ }),
        tweak_table()[5] == (TweakView { title: "Cachy Update"@, action_data: "arch-update.timer arch-update-tray.service"@, action_type: "user_service"@, package: "cachy-update"@, tooltip_key: "tweak-cachyupdate-tooltip"@ }),
{
}

/// Only "Profile-sync-daemon" and "Cachy Update" act on per-user units;
/// the other tweaks act on system-wide units.
pub proof fn lemma_tweak_scopes()
    ensures
        forall|i: int|
            0 <= i < tweak_table().len() ==> (is_user_scope(#[trigger] tweak_table()[i].action_type)
                <==> (i == 0 || i == 5)),
{
    reveal_strlit("user_service");
    reveal_strlit("service");
    assert("service"@.len() != user_service_type().len());
    assert(!is_user_scope("service"@));
}

} // verus!
