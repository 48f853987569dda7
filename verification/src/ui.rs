//! The dashboard's state and every decision it makes on a key press, a
//! typed command or a message from a burn job. Drawing and the terminal are
//! left to the caller, which hands over plain values.

use vstd::prelude::*;
use crate::text::{
    decimal_digits, digit_value, digits_value, lemma_decimal_roundtrip, has_infix, lowercase, push_decimal, str_contains, str_to_lowercase, str_trim,
    string_pop, string_push, trim_spec,
};
use crate::hw_enum::{drive_views, DriveInfo, DriveInfoView};
use crate::burn_logic::{texts, BurnEvent, BurnEventView, BurnJob, BurnJobView};
use vstd::utf8::{decode_utf8, encode_utf8, is_char_boundary};

verus! {

/// The screen that the terminal shows.
#[derive(PartialEq, Eq, Structural, Clone, Copy)]
pub enum CurrentScreen {
    Dashboard,
    Help,
    ActiveBurn,
    Splash,
}

/// The dashboard panel that keys act on.
#[derive(PartialEq, Eq, Structural, Clone, Copy)]
pub enum CurrentMenu {
    Media,
    Files,
    Status,
}

/// The entry of the options panel that keys act on.
#[derive(PartialEq, Eq, Structural, Clone, Copy)]
pub enum CurrentOption {
    VolumeLabel,
    Speed,
    Finalize,
    Burn,
}

/// The panel after `m`: files, options, drives, and round again.
pub open spec fn menu_next(m: CurrentMenu) -> CurrentMenu {
    match m {
        CurrentMenu::Files => CurrentMenu::Status,
        CurrentMenu::Status => CurrentMenu::Media,
        CurrentMenu::Media => CurrentMenu::Files,
    }
}

/// The panel before `m`.
pub open spec fn menu_prev(m: CurrentMenu) -> CurrentMenu {
    match m {
        CurrentMenu::Files => CurrentMenu::Media,
        CurrentMenu::Status => CurrentMenu::Files,
        CurrentMenu::Media => CurrentMenu::Status,
    }
}

/// The option after `o`: label, speed, finalize, burn, and round again.
pub open spec fn option_next(o: CurrentOption) -> CurrentOption {
    match o {
        CurrentOption::VolumeLabel => CurrentOption::Speed,
        CurrentOption::Speed => CurrentOption::Finalize,
        CurrentOption::Finalize => CurrentOption::Burn,
        CurrentOption::Burn => CurrentOption::VolumeLabel,
    }
}

/// The option before `o`.
pub open spec fn option_prev(o: CurrentOption) -> CurrentOption {
    match o {
        CurrentOption::VolumeLabel => CurrentOption::Burn,
        CurrentOption::Speed => CurrentOption::VolumeLabel,
        CurrentOption::Finalize => CurrentOption::Speed,
        CurrentOption::Burn => CurrentOption::Finalize,
    }
}

impl CurrentMenu {
    pub fn next(&self) -> (m: Self)
        ensures
            m == menu_next(*self),
    {
        match self {
            CurrentMenu::Files => CurrentMenu::Status,
            CurrentMenu::Status => CurrentMenu::Media,
            CurrentMenu::Media => CurrentMenu::Files,
        }
    }

    pub fn prev(&self) -> (m: Self)
        ensures
            m == menu_prev(*self),
    {
        match self {
            CurrentMenu::Files => CurrentMenu::Media,
            CurrentMenu::Status => CurrentMenu::Files,
            CurrentMenu::Media => CurrentMenu::Status,
        }
    }
}

impl CurrentOption {
    pub fn next(&self) -> (o: Self)
        ensures
            o == option_next(*self),
    {
        match self {
            CurrentOption::VolumeLabel => CurrentOption::Speed,
            CurrentOption::Speed => CurrentOption::Finalize,
            CurrentOption::Finalize => CurrentOption::Burn,
            CurrentOption::Burn => CurrentOption::VolumeLabel,
        }
    }

    pub fn prev(&self) -> (o: Self)
        ensures
            o == option_prev(*self),
    {
        match self {
            CurrentOption::VolumeLabel => CurrentOption::Burn,
            CurrentOption::Speed => CurrentOption::VolumeLabel,
            CurrentOption::Finalize => CurrentOption::Speed,
            CurrentOption::Burn => CurrentOption::Finalize,
        }
    }
}

/// Going to the next panel and back, or back and then forward, returns to
/// the panel one started from; three steps forward go all the way round.
pub proof fn lemma_menu_cycle(m: CurrentMenu)
    ensures
        menu_prev(menu_next(m)) == m,
        menu_next(menu_prev(m)) == m,
        menu_next(menu_next(menu_next(m))) == m,
        menu_next(m) != m,
{
}

/// The options form a cycle of four in the same way.
pub proof fn lemma_option_cycle(o: CurrentOption)
    ensures
        option_prev(option_next(o)) == o,
        option_next(option_prev(o)) == o,
        option_next(option_next(option_next(option_next(o)))) == o,
        option_next(o) != o,
        option_next(option_next(o)) != o,
{
}

/// A colour of the dashboard's palette.
#[derive(PartialEq, Eq, Structural, Clone, Copy)]
pub enum Color {
    Blue,
    White,
    Reset,
    Green,
}

/// How a list draws its highlighted row.
#[derive(PartialEq, Eq, Structural, Clone, Copy)]
pub struct HighlightStyle {
    pub fg: Color,
    pub bg: Color,
    pub bold: bool,
}

/// A key press, as far as the dashboard tells keys apart.
#[derive(PartialEq, Eq, Structural, Clone, Copy)]
pub enum Key {
    Char(char),
    Esc,
    Backspace,
    Enter,
    Tab,
    BackTab,
    Up,
    Down,
    Other,
}

/// What the caller must do after a key press or a command.
pub enum Action {
    Nothing,
    /// Leave the program.
    Quit,
    /// Show a dialog that picks files, then hand them to `add_files`.
    PickFiles,
    /// Show a dialog that picks a folder, then hand it to `add_files`.
    PickFolder,
    /// Open a fresh channel for burn messages, and start nothing.
    OpenChannel,
    /// Open a fresh channel for burn messages and run this job on it.
    StartBurn(BurnJob),
}

pub enum ActionView {
    Nothing,
    Quit,
    PickFiles,
    PickFolder,
    OpenChannel,
    StartBurn(BurnJobView),
}

impl View for Action {
    type V = ActionView;

    open spec fn view(&self) -> ActionView {
        match self {
            Action::Nothing => ActionView::Nothing,
            Action::Quit => ActionView::Quit,
            Action::PickFiles => ActionView::PickFiles,
            Action::PickFolder => ActionView::PickFolder,
            Action::OpenChannel => ActionView::OpenChannel,
            Action::StartBurn(job) => ActionView::StartBurn(job@),
        }
    }
}

/// Everything the dashboard remembers.
pub struct App {
    pub logs: Vec<String>,
    pub drives: Vec<DriveInfo>,
    /// The highlighted row of the drive list.
    pub drive_selected: Option<usize>,
    /// The frame of the spinner on the start-up screen.
    pub throbber_index: i8,
    pub files: Vec<String>,
    pub selected_files: Vec<String>,
    /// The highlighted row of the file list.
    pub file_selected: Option<usize>,
    pub volume_label: String,
    pub burn_speed: String,
    pub finalize: bool,
    pub input_buffer: String,
    pub input_mode: bool,
    pub current_screen: CurrentScreen,
    pub current_menu: CurrentMenu,
    pub current_option: CurrentOption,
}

#[verifier::ext_equal]
pub struct AppView {
    pub logs: Seq<Seq<char>>,
    pub drives: Seq<DriveInfoView>,
    pub drive_selected: Option<usize>,
    pub throbber_index: i8,
    pub files: Seq<Seq<char>>,
    pub selected_files: Seq<Seq<char>>,
    pub file_selected: Option<usize>,
    pub volume_label: Seq<char>,
    pub burn_speed: Seq<char>,
    pub finalize: bool,
    pub input_buffer: Seq<char>,
    pub input_mode: bool,
    pub current_screen: CurrentScreen,
    pub current_menu: CurrentMenu,
    pub current_option: CurrentOption,
}

impl View for App {
    type V = AppView;

    open spec fn view(&self) -> AppView {
        AppView {
            logs: texts(self.logs@),
            drives: drive_views(self.drives@),
            drive_selected: self.drive_selected,
            throbber_index: self.throbber_index,
            files: texts(self.files@),
            selected_files: texts(self.selected_files@),
            file_selected: self.file_selected,
            volume_label: self.volume_label@,
            burn_speed: self.burn_speed@,
            finalize: self.finalize,
            input_buffer: self.input_buffer@,
            input_mode: self.input_mode,
            current_screen: self.current_screen,
            current_menu: self.current_menu,
            current_option: self.current_option,
        }
    }
}

/// The dashboard as the program starts: the start-up screen, the file
/// panel active, typing enabled, a volume named `NEW DISK` burnt at 8x and
/// closed afterwards.
pub open spec fn initial_app() -> AppView {
    AppView {
        logs: seq![],
        drives: seq![],
        drive_selected: None,
        throbber_index: 0,
        files: seq![],
        selected_files: seq![],
        file_selected: None,
        volume_label: "NEW DISK"@,
        burn_speed: "8x"@,
        finalize: true,
        input_buffer: seq![],
        input_mode: true,
        current_screen: CurrentScreen::Splash,
        current_menu: CurrentMenu::Files,
        current_option: CurrentOption::VolumeLabel,
    }
}

/// The spinner frame after `i`: one further, and back to 0 past the last.
pub open spec fn throbber_next(i: i8) -> i8 {
    if i == 127 {
        0
    } else {
        (i + 1) as i8
    }
}


/// The highlighted row after moving up in a list of `len` rows: the row
/// above, from the first row round to the last; the first row when none
/// was highlighted.
pub open spec fn select_up(sel: Option<usize>, len: nat) -> Option<usize> {
    match sel {
        Some(i) => if i == 0 {
            Some((len - 1) as usize)
        } else {
            Some((i - 1) as usize)
        },
        None => Some(0),
    }
}

/// Moving up is defined: a highlighted first row needs a row to wrap to.
pub open spec fn up_ok(sel: Option<usize>, len: nat) -> bool {
    sel == Some(0usize) ==> len > 0
}

/// The highlighted row after moving down: the row below, from the last row
/// (or beyond it) round to the first; the first row when none was
/// highlighted.
pub open spec fn select_down(sel: Option<usize>, len: nat) -> Option<usize> {
    match sel {
        Some(i) => if i >= len - 1 {
            Some(0)
        } else {
            Some((i + 1) as usize)
        },
        None => Some(0),
    }
}

/// Moving down is defined: a highlighted row needs a non-empty list.
pub open spec fn down_ok(sel: Option<usize>, len: nat) -> bool {
    sel is Some ==> len > 0
}

/// The dashboard after the up key.
pub open spec fn up_spec(a: AppView) -> AppView {
    match a.current_menu {
        CurrentMenu::Media => AppView { drive_selected: select_up(a.drive_selected, a.drives.len()), ..a },
        CurrentMenu::Files => AppView { file_selected: select_up(a.file_selected, a.files.len()), ..a },
        CurrentMenu::Status => AppView { current_option: option_prev(a.current_option), ..a },
    }
}

pub open spec fn upkey_ok(a: AppView) -> bool {
    match a.current_menu {
        CurrentMenu::Media => up_ok(a.drive_selected, a.drives.len()),
        CurrentMenu::Files => up_ok(a.file_selected, a.files.len()),
        CurrentMenu::Status => true,
    }
}

/// The dashboard after the down key.
pub open spec fn down_spec(a: AppView) -> AppView {
    match a.current_menu {
        CurrentMenu::Media => AppView {
            drive_selected: select_down(a.drive_selected, a.drives.len()),
            ..a
        },
        CurrentMenu::Files => AppView { file_selected: select_down(a.file_selected, a.files.len()), ..a },
        CurrentMenu::Status => AppView { current_option: option_next(a.current_option), ..a },
    }
}

pub open spec fn downkey_ok(a: AppView) -> bool {
    match a.current_menu {
        CurrentMenu::Media => down_ok(a.drive_selected, a.drives.len()),
        CurrentMenu::Files => down_ok(a.file_selected, a.files.len()),
        CurrentMenu::Status => true,
    }
}

/// The burn speed after `s` in the cycle 4x, 8x, 16x, 24x; any other
/// speed stays.
pub open spec fn speed_after(s: Seq<char>) -> Seq<char> {
    if s == "4x"@ {
        "8x"@
    } else if s == "8x"@ {
        "16x"@
    } else if s == "16x"@ {
        "24x"@
    } else if s == "24x"@ {
        "4x"@
    } else {
        s
    }
}

/// The job that burns the file list on drive `i`.
pub open spec fn job_for(a: AppView, i: int) -> BurnJobView {
    BurnJobView {
        files: a.files,
        volume_label: a.volume_label,
        drive_id: a.drives[i].id,
        finalize: a.finalize,
    }
}

/// The dashboard and the action after the enter key outside typing mode.
pub open spec fn select_spec(a: AppView) -> (AppView, ActionView) {
    match a.current_menu {
        CurrentMenu::Media => (a, ActionView::Nothing),
        CurrentMenu::Files => match a.file_selected {
            Some(i) => (
                AppView { selected_files: a.selected_files.push(decimal_digits(i as nat)), ..a },
                ActionView::Nothing,
            ),
            None => (a, ActionView::Nothing),
        },
        CurrentMenu::Status => match a.current_option {
            CurrentOption::VolumeLabel => (a, ActionView::Nothing),
            CurrentOption::Finalize => (AppView { finalize: !a.finalize, ..a }, ActionView::Nothing),
            CurrentOption::Speed => (
                AppView { burn_speed: speed_after(a.burn_speed), ..a },
                ActionView::Nothing,
            ),
            CurrentOption::Burn => match a.drive_selected {
                Some(i) => (a, ActionView::StartBurn(job_for(a, i as int))),
                None => (a, ActionView::OpenChannel),
            },
        },
    }
}

/// The enter key is defined: a burn needs the highlighted drive to exist.
pub open spec fn select_ok(a: AppView) -> bool {
    (a.current_menu == CurrentMenu::Status && a.current_option == CurrentOption::Burn)
        ==> match a.drive_selected {
        Some(i) => i < a.drives.len(),
        None => true,
    }
}

/// The dashboard after removing the highlighted file.
pub open spec fn remove_spec(a: AppView) -> AppView {
    match a.file_selected {
        Some(i) => AppView { files: a.files.remove(i as int), ..a },
        None => a,
    }
}

/// Removing is defined: the highlighted row is a file of the list.
pub open spec fn remove_ok(a: AppView) -> bool {
    match a.file_selected {
        Some(i) => i < a.files.len(),
        None => true,
    }
}

fn text_is(s: &String, word: &str) -> (b: bool)
    ensures
        b == (s@ == word@),
{
    *s == String::from_str(word)
}

fn next_speed(speed: &String) -> (r: String)
    ensures
        r@ == speed_after(speed@),
{
    if text_is(speed, "4x") {
        String::from_str("8x")
    } else if text_is(speed, "8x") {
        String::from_str("16x")
    } else if text_is(speed, "16x") {
        String::from_str("24x")
    } else if text_is(speed, "24x") {
        String::from_str("4x")
    } else {
        speed.clone()
    }
}

fn clone_texts(v: &Vec<String>) -> (r: Vec<String>)
    ensures
        texts(r@) == texts(v@),
{
    let mut r: Vec<String> = Vec::new();
    let mut k: usize = 0;
    while k < v.len()
        invariant
            k <= v.len(),
            r@.len() == k,
            texts(r@) == texts(v@).subrange(0, k as int),
        decreases v.len() - k,
    {
        let ghost before = r@;
        let item = v[k].clone();
        assert(item@ == v@[k as int]@);
        r.push(item);
        assert(texts(r@) =~= texts(before).push(item@));
        assert(texts(r@) =~= texts(v@).subrange(0, k + 1));
        k = k + 1;
    }
    assert(texts(v@).subrange(0, v.len() as int) =~= texts(v@));
    r
}

impl App {
    pub fn new() -> (app: App)
        ensures
            app@ == initial_app(),
    {
        let app = App {
            drives: Vec::new(),
            drive_selected: None,
            files: Vec::new(),
            selected_files: Vec::new(),
            file_selected: None,
            volume_label: String::from_str("NEW DISK"),
            burn_speed: String::from_str("8x"),
            finalize: true,
            input_buffer: String::new(),
            input_mode: true,
            throbber_index: 0,
            current_screen: CurrentScreen::Splash,
            current_menu: CurrentMenu::Files,
            current_option: CurrentOption::VolumeLabel,
            logs: Vec::new(),
        };
        assert(texts(app.logs@) =~= Seq::<Seq<char>>::empty());
        assert(texts(app.files@) =~= Seq::<Seq<char>>::empty());
        assert(texts(app.selected_files@) =~= Seq::<Seq<char>>::empty());
        assert(drive_views(app.drives@) =~= Seq::<DriveInfoView>::empty());
        assert(app@ =~= initial_app());
        app
    }

    /// Advances the start-up spinner by one frame.
    pub fn tick(&mut self)
        ensures
            final(self)@ == (AppView { throbber_index: throbber_next(old(self).throbber_index), ..old(self)@ }),
    {
        self.throbber_index = if self.throbber_index == 127 {
            0
        } else {
            self.throbber_index + 1
        };
    }

    /// The colour of a panel's text: blue for the active panel outside
    /// typing mode, white otherwise.
    pub fn set_color(&self, current: CurrentMenu, target: CurrentMenu) -> (c: Color)
        ensures
            c == (if current == target && !self.input_mode {
                Color::Blue
            } else {
                Color::White
            }),
    {
        if current == target && self.input_mode == false {
            Color::Blue
        } else {
            Color::White
        }
    }

    /// The background of an option: blue for the chosen option while the
    /// options panel is active outside typing mode, the terminal's own
    /// otherwise.
    pub fn set_bg(&self, current: CurrentOption, target: CurrentOption) -> (c: Color)
        ensures
            c == (if current == target && !self.input_mode && self.current_menu == CurrentMenu::Status {
                Color::Blue
            } else {
                Color::Reset
            }),
    {
        if current == target && self.input_mode == false && self.current_menu == CurrentMenu::Status {
            Color::Blue
        } else {
            Color::Reset
        }
    }

    /// How a panel's list highlights its row: bold white on blue in the
    /// active panel, blue on the terminal's background elsewhere.
    pub fn get_highlight_style(&self, target: CurrentMenu) -> (s: HighlightStyle)
        ensures
            s == (if self.current_menu == target {
                HighlightStyle { fg: Color::White, bg: Color::Blue, bold: true }
            } else {
                HighlightStyle { fg: Color::Blue, bg: Color::Reset, bold: false }
            }),
    {
        if self.current_menu == target {
            HighlightStyle { fg: Color::White, bg: Color::Blue, bold: true }
        } else {
            HighlightStyle { fg: Color::Blue, bg: Color::Reset, bold: false }
        }
    }

    /// The colour of the command line: green while typing, white otherwise.
    pub fn input_color(&self) -> (c: Color)
        ensures
            c == (if self.input_mode {
                Color::Green
            } else {
                Color::White
            }),
    {
        if self.input_mode {
            Color::Green
        } else {
            Color::White
        }
    }

    /// The up key: the row above in the active list, or the option before.
    pub fn upkey(&mut self)
        requires
            upkey_ok(old(self)@),
        ensures
            final(self)@ == up_spec(old(self)@),
    {
        assert(drive_views(self.drives@).len() == self.drives@.len());
        assert(texts(self.files@).len() == self.files@.len());
        match self.current_menu {
            CurrentMenu::Media => {
                let i = match self.drive_selected {
                    Some(i) => if i == 0 {
                        self.drives.len() - 1
                    } else {
                        i - 1
                    },
                    None => 0,
                };
                self.drive_selected = Some(i);
            },
            CurrentMenu::Files => {
                let i = match self.file_selected {
                    Some(i) => if i == 0 {
                        self.files.len() - 1
                    } else {
                        i - 1
                    },
                    None => 0,
                };
                self.file_selected = Some(i);
            },
            CurrentMenu::Status => {
                self.current_option = self.current_option.prev();
            },
        }
    }

    /// The down key: the row below in the active list, or the option after.
    pub fn donkey(&mut self)
        requires
            downkey_ok(old(self)@),
        ensures
            final(self)@ == down_spec(old(self)@),
    {
        assert(drive_views(self.drives@).len() == self.drives@.len());
        assert(texts(self.files@).len() == self.files@.len());
        match self.current_menu {
            CurrentMenu::Media => {
                let i = match self.drive_selected {
                    Some(i) => if i >= self.drives.len() - 1 {
                        0
                    } else {
                        i + 1
                    },
                    None => 0,
                };
                self.drive_selected = Some(i);
            },
            CurrentMenu::Files => {
                let i = match self.file_selected {
                    Some(i) => if i >= self.files.len() - 1 {
                        0
                    } else {
                        i + 1
                    },
                    None => 0,
                };
                self.file_selected = Some(i);
            },
            CurrentMenu::Status => {
                self.current_option = self.current_option.next();
            },
        }
    }

    /// The enter key outside typing mode: in the file panel the highlighted
    /// row's number joins the chosen files; in the options panel the
    /// finalize flag toggles, the speed moves on, or a burn of the file list
    /// on the highlighted drive is asked for.
    pub fn select(&mut self) -> (action: Action)
        requires
            select_ok(old(self)@),
        ensures
            final(self)@ == select_spec(old(self)@).0,
            action@ == select_spec(old(self)@).1,
    {
        assert(drive_views(self.drives@).len() == self.drives@.len());
        match self.current_menu {
            CurrentMenu::Media => Action::Nothing,
            CurrentMenu::Files => {
                match self.file_selected {
                    Some(i) => {
                        let mut number = String::new();
                        push_decimal(&mut number, i);
                        let ghost before = self.selected_files@;
                        self.selected_files.push(number);
                        assert(texts(self.selected_files@) =~= texts(before).push(
                            decimal_digits(i as nat),
                        ));
                    },
                    None => {},
                }
                Action::Nothing
            },
            CurrentMenu::Status => {
                match self.current_option {
                    CurrentOption::VolumeLabel => Action::Nothing,
                    CurrentOption::Finalize => {
                        self.finalize = !self.finalize;
                        Action::Nothing
                    },
                    CurrentOption::Speed => {
                        self.burn_speed = next_speed(&self.burn_speed);
                        Action::Nothing
                    },
                    CurrentOption::Burn => {
                        match self.drive_selected {
                            Some(i) => Action::StartBurn(self.burn_job(i)),
                            None => Action::OpenChannel,
                        }
                    },
                }
            },
        }
    }

    fn burn_job(&self, i: usize) -> (job: BurnJob)
        requires
            i < self.drives.len(),
        ensures
            job@ == job_for(self@, i as int),
    {
        BurnJob {
            files: clone_texts(&self.files),
            volume_label: self.volume_label.clone(),
            drive_id: self.drives[i].id.clone(),
            finalize: self.finalize,
        }
    }

    /// Removes the highlighted file from the list.
    pub fn remove(&mut self)
        requires
            remove_ok(old(self)@),
        ensures
            final(self)@ == remove_spec(old(self)@),
    {
        if let Some(selected_file) = self.file_selected {
            let ghost before = self.files@;
            self.files.remove(selected_file);
            assert(texts(self.files@) =~= texts(before).remove(selected_file as int));
        }
    }
}


/// The length in bytes of the UTF-8 form of `c`, as `str::len` reports it.
pub open spec fn byte_len(c: Seq<char>) -> usize {
    encode_utf8(c).len() as usize
}

/// The command names a new volume label: it contains `setvl` and is longer
/// than five bytes.
pub open spec fn sets_label(c: Seq<char>) -> bool {
    has_infix(c, "setvl"@) && byte_len(c) > 5
}

/// The label such a command sets: everything after its first five bytes.
pub open spec fn label_from_command(c: Seq<char>) -> Seq<char> {
    decode_utf8(encode_utf8(c).subrange(5, encode_utf8(c).len() as int))
}

/// A decimal digit `0`-`9`.
pub open spec fn is_decimal_digit(ch: char) -> bool {
    '0' <= ch && ch <= '9'
}

/// A non-empty run of decimal digits: an integer as the commands take it.
pub open spec fn is_number(s: Seq<char>) -> bool {
    s.len() > 0 && forall|i: int| 0 <= i < s.len() ==> is_decimal_digit(#[trigger] s[i])
}

/// What follows the word of a speed command and its space: the characters
/// from the tenth on.
pub open spec fn speed_argument(c: Seq<char>) -> Seq<char> {
    if c.len() > 9 {
        c.subrange(9, c.len() as int)
    } else {
        seq![]
    }
}

/// The command names a new burn speed: it contains `setspeed`, is longer
/// than eight bytes, and its argument is an integer.
pub open spec fn sets_speed(c: Seq<char>) -> bool {
    has_infix(c, "setspeed"@) && byte_len(c) > 8 && is_number(speed_argument(c))
}

/// The speed such a command sets: the integer followed by `x`.
pub open spec fn speed_from_command(c: Seq<char>) -> Seq<char> {
    speed_argument(c) + "x"@
}

/// The command removes a file by its number: `remove ` followed by an
/// integer.
pub open spec fn removes_file(c: Seq<char>) -> bool {
    c.len() > 7 && c.subrange(0, 7) == "remove "@ && is_number(c.subrange(7, c.len() as int))
}

/// The number of the file that a remove command names.
pub open spec fn removed_index(c: Seq<char>) -> int {
    digits_value(c.subrange(7, c.len() as int), 10)
}

/// A command can be carried out: a label command splits at a character
/// boundary, and a burn names a drive that exists.
pub open spec fn command_ok(a: AppView, c: Seq<char>) -> bool {
    &&& sets_label(c) ==> is_char_boundary(encode_utf8(c), 5)
    &&& c == "burn"@ ==> match a.drive_selected {
        Some(i) => i < a.drives.len(),
        None => true,
    }
}

/// The part of a command that depends on its whole text.
pub open spec fn command_base(a: AppView, c: Seq<char>) -> (AppView, ActionView) {
    if c == "add"@ {
        (a, ActionView::PickFiles)
    } else if c == "addfolder"@ {
        (a, ActionView::PickFolder)
    } else if c == "help"@ {
        (AppView { current_screen: CurrentScreen::Help, ..a }, ActionView::Nothing)
    } else if c == "setfinalize"@ {
        (AppView { finalize: !a.finalize, ..a }, ActionView::Nothing)
    } else if c == "burn"@ {
        (
            AppView { current_screen: CurrentScreen::ActiveBurn, logs: seq![], ..a },
            match a.drive_selected {
                Some(i) => ActionView::StartBurn(job_for(a, i as int)),
                None => ActionView::Quit,
            },
        )
    } else if removes_file(c) {
        if removed_index(c) < a.files.len() {
            (AppView { files: a.files.remove(removed_index(c)), ..a }, ActionView::Nothing)
        } else {
            (a, ActionView::Nothing)
        }
    } else {
        (a, ActionView::Nothing)
    }
}

/// The dashboard and the action after the command `c` (already trimmed
/// and in lower case) is entered: `quit` and `exit` leave at once, as does
/// `burn` with no drive highlighted; otherwise the command acts, the label
/// and speed commands take effect, and the command line is emptied.
pub open spec fn command_step(a: AppView, c: Seq<char>) -> (AppView, ActionView) {
    if c == "quit"@ || c == "exit"@ {
        (a, ActionView::Quit)
    } else {
        let (b, act) = command_base(a, c);
        if act is Quit {
            (b, act)
        } else {
            let b1 = if sets_label(c) {
                AppView { volume_label: label_from_command(c), ..b }
            } else {
                b
            };
            let b2 = if sets_speed(c) {
                AppView { burn_speed: speed_from_command(c), ..b1 }
            } else {
                b1
            };
            (AppView { input_buffer: seq![], ..b2 }, act)
        }
    }
}

/// The command that the command line holds: its text without surrounding
/// white space, in lower case.
pub open spec fn entered_command(a: AppView) -> Seq<char> {
    lowercase(trim_spec(a.input_buffer))
}

/// A key press can be handled without failing.
pub open spec fn key_ok(a: AppView, k: Key) -> bool {
    a.current_screen == CurrentScreen::Dashboard ==> if a.input_mode {
        k == Key::Enter ==> command_ok(a, entered_command(a))
    } else {
        match k {
            Key::Char(c) => c == 'r' ==> remove_ok(a),
            Key::Down => downkey_ok(a),
            Key::Up => upkey_ok(a),
            Key::Enter => select_ok(a),
            _ => true,
        }
    }
}

/// The dashboard while typing, after key `k`.
pub open spec fn typing_step(a: AppView, k: Key) -> (AppView, ActionView) {
    match k {
        Key::Esc => (AppView { input_mode: false, ..a }, ActionView::Nothing),
        Key::Char(c) => (AppView { input_buffer: a.input_buffer.push(c), ..a }, ActionView::Nothing),
        Key::Backspace => (
            AppView {
                input_buffer: if a.input_buffer.len() > 0 {
                    a.input_buffer.drop_last()
                } else {
                    a.input_buffer
                },
                ..a
            },
            ActionView::Nothing,
        ),
        Key::Enter => command_step(a, entered_command(a)),
        _ => (a, ActionView::Nothing),
    }
}

/// The dashboard outside typing mode, after key `k`.
pub open spec fn browsing_step(a: AppView, k: Key) -> (AppView, ActionView) {
    match k {
        Key::Char(c) => if c == 'q' {
            (a, ActionView::Quit)
        } else if c == 'i' {
            (AppView { input_mode: true, ..a }, ActionView::Nothing)
        } else if c == 'h' {
            (AppView { current_screen: CurrentScreen::Help, ..a }, ActionView::Nothing)
        } else if c == 'r' {
            (remove_spec(a), ActionView::Nothing)
        } else if c == 'a' {
            (a, ActionView::PickFiles)
        } else {
            (a, ActionView::Nothing)
        },
        Key::Tab => (AppView { current_menu: menu_next(a.current_menu), ..a }, ActionView::Nothing),
        Key::BackTab => (AppView { current_menu: menu_prev(a.current_menu), ..a }, ActionView::Nothing),
        Key::Down => (down_spec(a), ActionView::Nothing),
        Key::Up => (up_spec(a), ActionView::Nothing),
        Key::Enter => select_spec(a),
        _ => (a, ActionView::Nothing),
    }
}

/// The dashboard and the action after key `k`: on the help screen `q` or
/// escape and on the burn screen escape go back to the dashboard, the
/// start-up screen ignores keys, and the dashboard acts by its mode.
pub open spec fn key_step(a: AppView, k: Key) -> (AppView, ActionView) {
    match a.current_screen {
        CurrentScreen::Help => if k == Key::Esc || k == Key::Char('q') {
            (AppView { current_screen: CurrentScreen::Dashboard, ..a }, ActionView::Nothing)
        } else {
            (a, ActionView::Nothing)
        },
        CurrentScreen::ActiveBurn => if k == Key::Esc {
            (AppView { current_screen: CurrentScreen::Dashboard, ..a }, ActionView::Nothing)
        } else {
            (a, ActionView::Nothing)
        },
        CurrentScreen::Splash => (a, ActionView::Nothing),
        CurrentScreen::Dashboard => if a.input_mode {
            typing_step(a, k)
        } else {
            browsing_step(a, k)
        },
    }
}

/// Whether `s` is a non-empty run of decimal digits.
fn all_digits(s: &str) -> (b: bool)
    ensures
        b == is_number(s@),
{
    let n = s.unicode_len();
    if n == 0 {
        return false;
    }
    let mut k: usize = 0;
    while k < n
        invariant
            n == s@.len(),
            k <= n,
            forall|i: int| 0 <= i < k ==> is_decimal_digit(#[trigger] s@[i]),
        decreases n - k,
    {
        let ch = s.get_char(k);
        if !('0' <= ch && ch <= '9') {
            return false;
        }
        k = k + 1;
    }
    true
}

/// The value of a decimal digit.
fn digit_of(ch: char) -> (d: u32)
    requires
        is_decimal_digit(ch),
    ensures
        d as int == digit_value(ch),
        d < 10,
{
    match ch {
        '0' => 0,
        '1' => 1,
        '2' => 2,
        '3' => 3,
        '4' => 4,
        '5' => 5,
        '6' => 6,
        '7' => 7,
        '8' => 8,
        _ => 9,
    }
}

/// A prefix of a run of digits denotes no more than the whole run.
proof fn lemma_digits_prefix(s: Seq<char>, k: int)
    requires
        forall|i: int| 0 <= i < s.len() ==> is_decimal_digit(#[trigger] s[i]),
        0 <= k <= s.len(),
    ensures
        0 <= digits_value(s.subrange(0, k), 10) <= digits_value(s, 10),
    decreases s.len(),
{
    if k == s.len() {
        assert(s.subrange(0, k) =~= s);
        if s.len() > 0 {
            lemma_digits_prefix(s.drop_last(), 0);
        }
    } else {
        let t = s.drop_last();
        assert forall|i: int| 0 <= i < t.len() implies is_decimal_digit(#[trigger] t[i]) by {
            assert(t[i] == s[i]);
        }
        lemma_digits_prefix(t, k);
        assert(t.subrange(0, k) =~= s.subrange(0, k));
        assert(is_decimal_digit(s[s.len() - 1]));
        assert(digit_value(s.last()) >= 0);
    }
}

/// The index that the number `s` denotes, when it is below `limit`.
fn index_below(s: &str, limit: usize) -> (r: Option<usize>)
    requires
        is_number(s@),
    ensures
        0 <= digits_value(s@, 10),
        digits_value(s@, 10) < limit ==> r == Some(digits_value(s@, 10) as usize),
        digits_value(s@, 10) >= limit ==> r is None,
{
    proof {
        lemma_digits_prefix(s@, 0);
    }
    if limit == 0 {
        return None;
    }
    let n = s.unicode_len();
    let mut acc: u128 = 0;
    let mut k: usize = 0;
    assert(s@.subrange(0, 0) =~= Seq::<char>::empty());
    while k < n
        invariant
            n == s@.len(),
            k <= n,
            is_number(s@),
            acc as int == digits_value(s@.subrange(0, k as int), 10),
            acc < limit,
        decreases n - k,
    {
        let d = digit_of(s.get_char(k));
        let next: u128 = acc * 10 + d as u128;
        assert(s@.subrange(0, k + 1).drop_last() =~= s@.subrange(0, k as int));
        if next >= limit as u128 {
            proof {
                lemma_digits_prefix(s@, k + 1);
            }
            return None;
        }
        acc = next;
        k = k + 1;
    }
    assert(s@.subrange(0, n as int) =~= s@);
    Some(acc as usize)
}

impl App {
    /// Carries out `remove <number>`: removes the file with that number,
    /// if there is one; any other command leaves the list as it is.
    fn remove_numbered(&mut self, c: &str)
        ensures
            final(self)@ == (if removes_file(c@) && removed_index(c@) < old(self)@.files.len() {
                AppView { files: old(self)@.files.remove(removed_index(c@)), ..old(self)@ }
            } else {
                old(self)@
            }),
    {
        let n = c.unicode_len();
        if n <= 7 {
            return;
        }
        if !text_is(&String::from_str(c.substring_char(0, 7)), "remove ") {
            return;
        }
        let argument = c.substring_char(7, n);
        if !all_digits(argument) {
            return;
        }
        match index_below(argument, self.files.len()) {
            Some(i) => {
                assert(texts(self.files@).len() == self.files@.len());
                let ghost before = self.files@;
                self.files.remove(i);
                assert(texts(self.files@) =~= texts(before).remove(i as int));
            },
            None => {},
        }
    }

    /// The command that the command line holds, trimmed and in lower case.
    pub fn command(&self) -> (c: String)
        ensures
            c@ == entered_command(self@),
    {
        str_to_lowercase(str_trim(self.input_buffer.as_str()))
    }

    /// Whether `command` can be carried out.
    pub fn accepts_command(&self, command: &String) -> (b: bool)
        ensures
            b == command_ok(self@, command@),
    {
        assert(drive_views(self.drives@).len() == self.drives@.len());
        let c = command.as_str();
        let label_ok = !(str_contains(c, "setvl") && c.len() > 5) || c.is_char_boundary(5);
        let burn_ok = !text_is(command, "burn") || match self.drive_selected {
            Some(i) => i < self.drives.len(),
            None => true,
        };
        label_ok && burn_ok
    }

    /// Carries out `command`, already trimmed and in lower case.
    pub fn run_command(&mut self, command: &String) -> (action: Action)
        requires
            command_ok(old(self)@, command@),
        ensures
            final(self)@ == command_step(old(self)@, command@).0,
            action@ == command_step(old(self)@, command@).1,
    {
        assert(drive_views(self.drives@).len() == self.drives@.len());
        if text_is(command, "quit") || text_is(command, "exit") {
            return Action::Quit;
        }
        let mut action = Action::Nothing;
        if text_is(command, "add") {
            action = Action::PickFiles;
        } else if text_is(command, "addfolder") {
            action = Action::PickFolder;
        } else if text_is(command, "help") {
            self.current_screen = CurrentScreen::Help;
        } else if text_is(command, "setfinalize") {
            self.finalize = !self.finalize;
        } else if text_is(command, "burn") {
            self.current_screen = CurrentScreen::ActiveBurn;
            self.logs.clear();
            assert(texts(self.logs@) =~= Seq::<Seq<char>>::empty());
            match self.drive_selected {
                Some(i) => {
                    action = Action::StartBurn(self.burn_job(i));
                },
                None => {
                    return Action::Quit;
                },
            }
        } else {
            self.remove_numbered(command.as_str());
        }
        let c = command.as_str();
        if str_contains(c, "setvl") && c.len() > 5 {
            let (_, rest) = c.split_at(5);
            proof {
                vstd::utf8::encode_utf8_decode_utf8(rest@);
            }
            self.volume_label = String::from_str(rest);
        }
        if str_contains(c, "setspeed") && c.len() > 8 {
            let n = c.unicode_len();
            if n > 9 {
                let argument = c.substring_char(9, n);
                if all_digits(argument) {
                    self.burn_speed = String::from_str(argument).concat("x");
                }
            }
        }
        self.input_buffer = String::new();
        action
    }

    /// Handles one key press, as `key_step` says.
    pub fn handle_key(&mut self, key: Key) -> (action: Action)
        requires
            key_ok(old(self)@, key),
        ensures
            final(self)@ == key_step(old(self)@, key).0,
            action@ == key_step(old(self)@, key).1,
    {
        match self.current_screen {
            CurrentScreen::Help => {
                if key == Key::Esc || key == Key::Char('q') {
                    self.current_screen = CurrentScreen::Dashboard;
                }
                Action::Nothing
            },
            CurrentScreen::ActiveBurn => {
                if key == Key::Esc {
                    self.current_screen = CurrentScreen::Dashboard;
                }
                Action::Nothing
            },
            CurrentScreen::Splash => Action::Nothing,
            CurrentScreen::Dashboard => {
                if self.input_mode {
                    match key {
                        Key::Esc => {
                            self.input_mode = false;
                            Action::Nothing
                        },
                        Key::Char(c) => {
                            string_push(&mut self.input_buffer, c);
                            Action::Nothing
                        },
                        Key::Backspace => {
                            string_pop(&mut self.input_buffer);
                            Action::Nothing
                        },
                        Key::Enter => {
                            let command = self.command();
                            self.run_command(&command)
                        },
                        _ => Action::Nothing,
                    }
                } else {
                    match key {
                        Key::Char(c) => {
                            if c == 'q' {
                                Action::Quit
                            } else if c == 'i' {
                                self.input_mode = true;
                                Action::Nothing
                            } else if c == 'h' {
                                self.current_screen = CurrentScreen::Help;
                                Action::Nothing
                            } else if c == 'r' {
                                self.remove();
                                Action::Nothing
                            } else if c == 'a' {
                                Action::PickFiles
                            } else {
                                Action::Nothing
                            }
                        },
                        Key::Tab => {
                            self.current_menu = self.current_menu.next();
                            Action::Nothing
                        },
                        Key::BackTab => {
                            self.current_menu = self.current_menu.prev();
                            Action::Nothing
                        },
                        Key::Down => {
                            self.donkey();
                            Action::Nothing
                        },
                        Key::Up => {
                            self.upkey();
                            Action::Nothing
                        },
                        Key::Enter => self.select(),
                        _ => Action::Nothing,
                    }
                }
            },
        }
    }

    /// Whether a key press can be handled without failing.
    pub fn accepts_key(&self, key: Key) -> (b: bool)
        ensures
            b == key_ok(self@, key),
    {
        assert(drive_views(self.drives@).len() == self.drives@.len());
        assert(texts(self.files@).len() == self.files@.len());
        match self.current_screen {
            CurrentScreen::Dashboard => {},
            _ => {
                return true;
            },
        }
        if self.input_mode {
            match key {
                Key::Enter => {
                    let command = self.command();
                    self.accepts_command(&command)
                },
                _ => true,
            }
        } else {
            match key {
                Key::Char(c) => {
                    if c == 'r' {
                        match self.file_selected {
                            Some(i) => i < self.files.len(),
                            None => true,
                        }
                    } else {
                        true
                    }
                },
                Key::Down => match self.current_menu {
                    CurrentMenu::Media => self.drive_selected.is_none() || self.drives.len() > 0,
                    CurrentMenu::Files => self.file_selected.is_none() || self.files.len() > 0,
                    CurrentMenu::Status => true,
                },
                Key::Up => match self.current_menu {
                    CurrentMenu::Media => self.drive_selected != Some(0usize) || self.drives.len() > 0,
                    CurrentMenu::Files => self.file_selected != Some(0usize) || self.files.len() > 0,
                    CurrentMenu::Status => true,
                },
                Key::Enter => {
                    if self.current_menu == CurrentMenu::Status && self.current_option
                        == CurrentOption::Burn {
                        match self.drive_selected {
                            Some(i) => i < self.drives.len(),
                            None => true,
                        }
                    } else {
                        true
                    }
                },
                _ => true,
            }
        }
    }

    /// Handles a key press when that cannot fail, and otherwise returns
    /// `None` and leaves the dashboard as it was.
    pub fn try_handle_key(&mut self, key: Key) -> (action: Option<Action>)
        ensures
            action is None <==> !key_ok(old(self)@, key),
            action is None ==> final(self)@ == old(self)@,
            action matches Some(act) ==> final(self)@ == key_step(old(self)@, key).0 && act@
                == key_step(old(self)@, key).1,
    {
        if self.accepts_key(key) {
            Some(self.handle_key(key))
        } else {
            None
        }
    }
}


/// The log lines that a message from a burn job adds: a log line as it is,
/// an error behind `Error: `, and two closing lines when the job finished.
/// Progress reports add none.
pub open spec fn event_lines(e: BurnEventView) -> Seq<Seq<char>> {
    match e {
        BurnEventView::Log(s) => seq![s],
        BurnEventView::Error(s) => seq!["Error: "@ + s],
        BurnEventView::Finished => seq!["Burn Finished"@, "press any key to continue"@],
        BurnEventView::Progress { .. } => seq![],
    }
}

impl App {
    /// Adds picked paths to the file list, and highlights its first row when
    /// the list is not empty.
    pub fn add_files(&mut self, paths: Vec<String>)
        ensures
            final(self)@ == (AppView {
                files: old(self)@.files + texts(paths@),
                file_selected: if old(self)@.files.len() + paths@.len() > 0 {
                    Some(0usize)
                } else {
                    old(self).file_selected
                },
                ..old(self)@
            }),
    {
        let mut paths = paths;
        let ghost before = self.files@;
        let ghost added = paths@;
        self.files.append(&mut paths);
        assert(texts(self.files@) =~= texts(before) + texts(added));
        if self.files.len() > 0 {
            self.file_selected = Some(0);
        }
    }

    /// Takes the drives that were found and shows the dashboard, with the
    /// first drive highlighted when there is one.
    pub fn finish_enumeration(&mut self, drives: Vec<DriveInfo>)
        ensures
            final(self)@ == (AppView {
                drives: drive_views(drives@),
                current_screen: CurrentScreen::Dashboard,
                drive_selected: if drives@.len() > 0 {
                    Some(0usize)
                } else {
                    old(self).drive_selected
                },
                ..old(self)@
            }),
    {
        self.drives = drives;
        self.current_screen = CurrentScreen::Dashboard;
        if self.drives.len() > 0 {
            self.drive_selected = Some(0);
        }
    }

    /// Records a message from a burn job in the log.
    pub fn apply_burn_event(&mut self, event: BurnEvent)
        ensures
            final(self)@ == (AppView { logs: old(self)@.logs + event_lines(event@), ..old(self)@ }),
    {
        let ghost before = self.logs@;
        match event {
            BurnEvent::Progress { .. } => {
                assert(texts(self.logs@) =~= texts(before) + event_lines(event@));
            },
            BurnEvent::Log(s) => {
                self.logs.push(s);
                assert(texts(self.logs@) =~= texts(before) + event_lines(event@));
            },
            BurnEvent::Error(e) => {
                self.logs.push(String::from_str("Error: ").concat(e.as_str()));
                assert(texts(self.logs@) =~= texts(before) + event_lines(event@));
            },
            BurnEvent::Finished => {
                self.logs.push(String::from_str("Burn Finished"));
                self.logs.push(String::from_str("press any key to continue"));
                assert(texts(self.logs@) =~= texts(before) + event_lines(event@));
            },
        }
    }
}


/// `sel` highlights a row of a list of `len` rows.
pub open spec fn in_list(sel: Option<usize>, len: nat) -> bool {
    match sel {
        Some(i) => i < len,
        None => false,
    }
}

/// With a row of the active list highlighted, the up key undoes the down
/// key and the down key undoes the up key; in the options panel the same
/// holds of the chosen option.
pub proof fn lemma_up_down_inverse(a: AppView)
    requires
        a.drives.len() <= usize::MAX,
        a.files.len() <= usize::MAX,
        a.current_menu == CurrentMenu::Media ==> in_list(a.drive_selected, a.drives.len()),
        a.current_menu == CurrentMenu::Files ==> in_list(a.file_selected, a.files.len()),
    ensures
        down_spec(up_spec(a)) == a,
        up_spec(down_spec(a)) == a,
{
    lemma_option_cycle(a.current_option);
}

/// In a non-empty list the down key always lands on a row of the list, and
/// so does the up key unless the highlight was already past the end.
pub proof fn lemma_moves_stay_in_list(a: AppView)
    requires
        a.drives.len() <= usize::MAX,
        a.files.len() <= usize::MAX,
    ensures
        a.current_menu == CurrentMenu::Files && a.files.len() > 0 ==> in_list(
            down_spec(a).file_selected,
            a.files.len(),
        ),
        a.current_menu == CurrentMenu::Files && a.files.len() > 0 && (a.file_selected is None
            || in_list(a.file_selected, a.files.len())) ==> in_list(
            up_spec(a).file_selected,
            a.files.len(),
        ),
        a.current_menu == CurrentMenu::Media && a.drives.len() > 0 ==> in_list(
            down_spec(a).drive_selected,
            a.drives.len(),
        ),
        a.current_menu == CurrentMenu::Media && a.drives.len() > 0 && (a.drive_selected is None
            || in_list(a.drive_selected, a.drives.len())) ==> in_list(
            up_spec(a).drive_selected,
            a.drives.len(),
        ),
{
}

/// Choosing the speed option four times comes back to the speed one
/// started from, whatever it was.
pub proof fn lemma_speed_cycle(s: Seq<char>)
    ensures
        speed_after(speed_after(speed_after(speed_after(s)))) == s,
{
    reveal_strlit("4x");
    reveal_strlit("8x");
    reveal_strlit("16x");
    reveal_strlit("24x");
    assert("4x"@ != "8x"@) by {
        assert("4x"@[0] != "8x"@[0]);
    }
    assert("4x"@.len() != "16x"@.len());
    assert("4x"@.len() != "24x"@.len());
    assert("8x"@.len() != "16x"@.len());
    assert("8x"@.len() != "24x"@.len());
    assert("16x"@ != "24x"@) by {
        assert("16x"@[0] != "24x"@[0]);
    }
}

/// Toggling the finalize option twice restores it, and changes nothing
/// else.
pub proof fn lemma_finalize_toggle_twice(a: AppView)
    requires
        a.current_menu == CurrentMenu::Status,
        a.current_option == CurrentOption::Finalize,
    ensures
        select_spec(select_spec(a).0).0 == a,
{
}

/// While typing, backspace takes back the character just typed.
pub proof fn lemma_backspace_undoes_typing(a: AppView, c: char)
    requires
        a.current_screen == CurrentScreen::Dashboard,
        a.input_mode,
    ensures
        key_step(key_step(a, Key::Char(c)).0, Key::Backspace).0 == a,
{
    assert(a.input_buffer.push(c).drop_last() =~= a.input_buffer);
}


/// A burn asked for from the options panel carries the dashboard's own
/// settings: its file list, volume label and finalize flag, and the id of
/// the highlighted drive.
pub proof fn lemma_burn_option_job(a: AppView, i: usize)
    requires
        a.current_menu == CurrentMenu::Status,
        a.current_option == CurrentOption::Burn,
        a.drive_selected == Some(i),
        i < a.drives.len(),
    ensures
        select_spec(a).1 == ActionView::StartBurn(
            BurnJobView {
                files: a.files,
                volume_label: a.volume_label,
                drive_id: a.drives[i as int].id,
                finalize: a.finalize,
            },
        ),
        select_spec(a).0 == a,
{
}

/// A burn asked for by the `burn` command carries the same settings, taken
/// before the log is cleared.
pub proof fn lemma_burn_command_job(a: AppView, i: usize)
    requires
        a.drive_selected == Some(i),
        i < a.drives.len(),
    ensures
        command_step(a, "burn"@).1 == ActionView::StartBurn(
            BurnJobView {
                files: a.files,
                volume_label: a.volume_label,
                drive_id: a.drives[i as int].id,
                finalize: a.finalize,
            },
        ),
        command_step(a, "burn"@).0.current_screen == CurrentScreen::ActiveBurn,
        command_step(a, "burn"@).0.files == a.files,
{
    lemma_words_differ();
    lemma_no_infix_without_char("burn"@, "setvl"@, 0);
    lemma_no_infix_without_char("burn"@, "setspeed"@, 0);
}

proof fn lemma_words_differ()
    ensures
        "burn"@ != "quit"@,
        "burn"@ != "exit"@,
        "burn"@ != "add"@,
        "burn"@ != "addfolder"@,
        "burn"@ != "help"@,
        "burn"@ != "setfinalize"@,
        "burn"@.len() == 4,
        "burn"@[0] == 'b',
        "burn"@[1] == 'u',
        "burn"@[2] == 'r',
        "burn"@[3] == 'n',
        "quit"@.len() == 4 && "quit"@[0] == 'q',
        "exit"@.len() == 4 && "exit"@[0] == 'e',
        "add"@.len() == 3 && "add"@[0] == 'a',
        "addfolder"@.len() == 9 && "addfolder"@[0] == 'a',
        "help"@.len() == 4 && "help"@[0] == 'h',
        "setfinalize"@.len() == 11 && "setfinalize"@[0] == 's',
        "setvl"@.len() == 5 && "setvl"@[0] == 's' && "setvl"@[3] == 'v',
        "setfinalize"@[3] == 'f',
        "setspeed "@.len() == 9,
        "setspeed "@.subrange(0, 8) == "setspeed"@,
        forall|i: int| 0 <= i < 9 ==> #[trigger] "setspeed "@[i] != 'v' && '\0' <= "setspeed "@[i]
            <= '\u{7f}',
        "setspeed "@[0] == 's' && "setspeed "@[3] == 's',
        "setspeed"@.len() == 8 && "setspeed"@[0] == 's',
        "remove "@.len() == 7,
        "remove "@[0] == 'r',
        "remove "@[1] == 'e',
        "remove "@[2] == 'm',
        "remove "@[3] == 'o',
        "remove "@[4] == 'v',
        "remove "@[5] == 'e',
        "remove "@[6] == ' ',
{
    reveal_strlit("burn");
    reveal_strlit("quit");
    reveal_strlit("exit");
    reveal_strlit("add");
    reveal_strlit("addfolder");
    reveal_strlit("help");
    reveal_strlit("setfinalize");
    reveal_strlit("setvl");
    reveal_strlit("setspeed");
    reveal_strlit("remove ");
    reveal_strlit("setspeed ");
    assert("setspeed "@.subrange(0, 8) =~= "setspeed"@);
    assert("burn"@[0] != "quit"@[0]);
    assert("burn"@[0] != "exit"@[0]);
    assert("burn"@[0] != "help"@[0]);
}

/// A pattern with a character that occurs nowhere in `s` does not occur in
/// `s`.
proof fn lemma_no_infix_without_char(s: Seq<char>, p: Seq<char>, k: int)
    requires
        0 <= k < p.len(),
        forall|i: int| 0 <= i < s.len() ==> s[i] != p[k],
    ensures
        !has_infix(s, p),
{
    if has_infix(s, p) {
        let i = choose|i: int| 0 <= i && i + p.len() <= s.len() && #[trigger] s.subrange(i, i + p.len()) == p;
        assert(s.subrange(i, i + p.len())[k] == s[i + k]);
    }
}

/// The decimal rendering of a number is a run of decimal digits.
pub proof fn lemma_decimal_digits_are_digits(n: nat)
    ensures
        is_number(decimal_digits(n)),
    decreases n,
{
    if n >= 10 {
        lemma_decimal_digits_are_digits(n / 10);
        let s = decimal_digits(n);
        assert forall|i: int| 0 <= i < s.len() implies is_decimal_digit(#[trigger] s[i]) by {
            if i < s.len() - 1 {
                assert(s[i] == decimal_digits(n / 10)[i]);
            }
        }
    }
}

/// `remove` with the decimal number `n` removes exactly the file at index
/// `n` (the whole number, however many digits it has) and nothing else of
/// the list; a number past the end of the list leaves it as it is.
pub proof fn lemma_remove_command_removes_numbered_file(a: AppView, n: nat)
    ensures
        ({
            let c = "remove "@ + decimal_digits(n);
            let t = command_step(a, c);
            &&& t.1 == ActionView::Nothing
            &&& n < a.files.len() ==> t.0.files == a.files.remove(n as int)
            &&& n >= a.files.len() ==> t.0.files == a.files
            &&& t.0.input_buffer.len() == 0
            &&& t.0.volume_label == a.volume_label
            &&& t.0.burn_speed == a.burn_speed
        }),
{
    lemma_words_differ();
    lemma_decimal_digits_are_digits(n);
    lemma_decimal_roundtrip(n);
    let d = decimal_digits(n);
    let c = "remove "@ + d;
    assert(c.subrange(0, 7) =~= "remove "@);
    assert(c.subrange(7, c.len() as int) =~= d);
    assert(c[0] == 'r');
    assert forall|i: int| 0 <= i < c.len() implies c[i] != 's' by {
        if i >= 7 {
            assert(c[i] == d[i - 7]);
            assert(is_decimal_digit(d[i - 7]));
        }
    }
    lemma_no_infix_without_char(c, "setvl"@, 0);
    lemma_no_infix_without_char(c, "setspeed"@, 0);
    assert(c != "quit"@ && c != "exit"@ && c != "add"@ && c != "addfolder"@ && c != "help"@
        && c != "setfinalize"@ && c != "burn"@) by {
        assert(c[0] != "quit"@[0]);
        assert(c[0] != "exit"@[0]);
        assert(c[0] != "add"@[0]);
        assert(c[0] != "addfolder"@[0]);
        assert(c[0] != "help"@[0]);
        assert(c[0] != "setfinalize"@[0]);
        assert(c[0] != "burn"@[0]);
    }
    assert(removes_file(c));
    assert(removed_index(c) == n);
}

/// Outside typing mode, the enter key does what choosing the highlighted
/// entry does: in particular it toggles the finalize option, and starts a
/// burn on the highlighted drive from the burn option.
pub proof fn lemma_enter_selects(a: AppView)
    requires
        a.current_screen == CurrentScreen::Dashboard,
        !a.input_mode,
    ensures
        key_step(a, Key::Enter) == select_spec(a),
        a.current_menu == CurrentMenu::Status && a.current_option == CurrentOption::Finalize
            ==> key_step(a, Key::Enter).0.finalize == !a.finalize,
        a.current_menu == CurrentMenu::Status && a.current_option == CurrentOption::Burn
            && a.drive_selected is Some ==> key_step(a, Key::Enter).1 is StartBurn,
{
}


/// `setspeed` with a decimal number makes the burn speed that number
/// followed by `x`, whatever its number of digits, and touches neither the
/// label nor the file list.
pub proof fn lemma_speed_command_sets_number(a: AppView, n: nat)
    requires
        ("setspeed "@ + decimal_digits(n)).len() <= usize::MAX,
    ensures
        ({
            let c = "setspeed "@ + decimal_digits(n);
            let t = command_step(a, c);
            &&& t.1 == ActionView::Nothing
            &&& t.0.burn_speed == decimal_digits(n) + "x"@
            &&& t.0.volume_label == a.volume_label
            &&& t.0.files == a.files
        }),
{
    lemma_words_differ();
    lemma_decimal_digits_are_digits(n);
    let d = decimal_digits(n);
    let c = "setspeed "@ + d;
    assert forall|i: int| 0 <= i < c.len() implies c[i] != 'v' && '\0' <= #[trigger] c[i]
        <= '\u{7f}' by {
        if i >= 9 {
            assert(c[i] == d[i - 9]);
            assert(is_decimal_digit(d[i - 9]));
        } else {
            assert(c[i] == "setspeed "@[i]);
        }
    }
    vstd::utf8::is_ascii_chars_encode_utf8(c);
    assert(c.subrange(0, 8) =~= "setspeed"@);
    assert(c.subrange(0int, 0int + "setspeed"@.len()) == "setspeed"@);
    assert(has_infix(c, "setspeed"@));
    assert(c.subrange(9, c.len() as int) =~= d);
    lemma_no_infix_without_char(c, "setvl"@, 3);
    assert(c[0] == 's' && c[3] == 's');
    assert(c != "quit"@ && c != "exit"@ && c != "add"@ && c != "addfolder"@ && c != "help"@
        && c != "setfinalize"@ && c != "burn"@) by {
        assert(c[0] != "quit"@[0]);
        assert(c[0] != "exit"@[0]);
        assert(c[0] != "add"@[0]);
        assert(c[0] != "addfolder"@[0]);
        assert(c[0] != "help"@[0]);
        assert(c[3] != "setfinalize"@[3]);
        assert(c[0] != "burn"@[0]);
    }
    assert(!removes_file(c)) by {
        assert(c.subrange(0, 7)[0] != "remove "@[0]);
    }
}

/// `quit` and `exit` leave the program and change nothing.
pub proof fn lemma_quit_changes_nothing(a: AppView)
    ensures
        command_step(a, "quit"@) == (a, ActionView::Quit),
        command_step(a, "exit"@) == (a, ActionView::Quit),
{
}

/// The arrow keys move the highlight of the active list by one row, from
/// the first row up to the last and from the last row down to the first,
/// and onto the first row when none is highlighted; the other list and the
/// files stay as they are.
pub proof fn lemma_arrow_keys_move_by_one(a: AppView, i: usize)
    requires
        a.current_screen == CurrentScreen::Dashboard,
        !a.input_mode,
        a.current_menu == CurrentMenu::Files,
        a.files.len() <= usize::MAX,
    ensures
        a.file_selected == Some(i) && 0 < i < a.files.len() ==> key_step(a, Key::Up).0.file_selected
            == Some((i - 1) as usize),
        a.file_selected == Some(i) && i + 1 < a.files.len() ==> key_step(
            a,
            Key::Down,
        ).0.file_selected == Some((i + 1) as usize),
        a.file_selected == Some(0usize) && a.files.len() > 0 ==> key_step(
            a,
            Key::Up,
        ).0.file_selected == Some((a.files.len() - 1) as usize),
        a.file_selected == Some(i) && i + 1 == a.files.len() ==> key_step(
            a,
            Key::Down,
        ).0.file_selected == Some(0usize),
        a.file_selected is None ==> key_step(a, Key::Up).0.file_selected == Some(0usize)
            && key_step(a, Key::Down).0.file_selected == Some(0usize),
        key_step(a, Key::Up).0.drive_selected == a.drive_selected,
        key_step(a, Key::Down).0.drive_selected == a.drive_selected,
        key_step(a, Key::Up).0.files == a.files,
        key_step(a, Key::Down).0.files == a.files,
{
}

/// The `r` key removes the highlighted file and only it, keeping the order
/// of the others.
pub proof fn lemma_remove_key_removes_highlighted(a: AppView, i: usize)
    requires
        a.current_screen == CurrentScreen::Dashboard,
        !a.input_mode,
        a.file_selected == Some(i),
        i < a.files.len(),
    ensures
        key_step(a, Key::Char('r')).0.files == a.files.remove(i as int),
        key_step(a, Key::Char('r')).0.files.len() + 1 == a.files.len(),
        forall|j: int| 0 <= j < i ==> key_step(a, Key::Char('r')).0.files[j] == a.files[j],
        forall|j: int|
            i <= j < a.files.len() - 1 ==> key_step(a, Key::Char('r')).0.files[j] == a.files[j + 1],
{
}

/// A burn job's messages reach the log as they are, errors behind
/// `Error: `, and a finished job adds its two closing lines; progress adds
/// nothing.
pub proof fn lemma_burn_message_lines(text: Seq<char>, written: i32, total: i32)
    ensures
        event_lines(BurnEventView::Log(text)) == seq![text],
        event_lines(BurnEventView::Error(text)) == seq!["Error: "@ + text],
        event_lines(BurnEventView::Finished) == seq!["Burn Finished"@, "press any key to continue"@],
        event_lines(BurnEventView::Progress { written, total }).len() == 0,
{
}

} // verus!
