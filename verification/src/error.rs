//! Why a hotkey could not be registered, and the text that says so.
use vstd::prelude::*;
use vstd::string::*;

verus! {

/// The digit for `n`, which is below ten.
pub open spec fn digit(n: nat) -> char
    recommends
        n < 10,
{
    ('0' as nat + n) as char
}

/// The decimal digits of `n`, most significant first, without leading zeros.
pub open spec fn digits(n: nat) -> Seq<char>
    decreases n,
{
    if n < 10 {
        seq![digit(n)]
    } else {
        digits(n / 10).push(digit(n % 10))
    }
}

/// `n` in decimal, with a minus sign before a negative number.
pub open spec fn decimal(n: int) -> Seq<char> {
    if n < 0 {
        seq!['-'] + digits((-n) as nat)
    } else {
        digits(n as nat)
    }
}

fn digit_text(n: u32) -> (text: &'static str)
    requires
        n < 10,
    ensures
        text@ == seq![digit(n as nat)],
{
    proof {
        reveal_strlit("0");
        reveal_strlit("1");
        reveal_strlit("2");
        reveal_strlit("3");
        reveal_strlit("4");
        reveal_strlit("5");
        reveal_strlit("6");
        reveal_strlit("7");
        reveal_strlit("8");
        reveal_strlit("9");
    }
    match n {
        0 => "0",
        1 => "1",
        2 => "2",
        3 => "3",
        4 => "4",
        5 => "5",
        6 => "6",
        7 => "7",
        8 => "8",
        _ => "9",
    }
}

fn digits_text(n: u32) -> (text: String)
    ensures
        text@ == digits(n as nat),
    decreases n,
{
    if n < 10 {
        digit_text(n).to_owned()
    } else {
        digits_text(n / 10).concat(digit_text(n % 10))
    }
}

/// Writes `n` in decimal.
pub fn decimal_text(n: i32) -> (text: String)
    ensures
        text@ == decimal(n as int),
{
    if n < 0 {
        let magnitude: u32 = (-(n as i64)) as u32;
        proof {
            reveal_strlit("-");
        }
        let text = "-".to_owned().concat(digits_text(magnitude).as_str());
        assert(text@ =~= decimal(n as int));
        text
    } else {
        digits_text(n as u32)
    }
}

/// Why the hotkey could not be registered.
#[derive(Debug, Clone, Copy, PartialEq, Eq, Structural)]
pub enum HotkeyError {
    /// Carbon refused to install the event handler, with this status.
    InstallEventHandler(i32),
    /// Carbon refused to register the hotkey, with this status.
    RegisterEventHotKey(i32),
    /// There is a Wayland display and no X11 display.
    PureWayland,
}

impl HotkeyError {
    /// The text for this error.
    pub open spec fn text(&self) -> Seq<char> {
        match self {
            HotkeyError::InstallEventHandler(status) => {
                "InstallEventHandler failed with status "@ + decimal(*status as int)
            },
            HotkeyError::RegisterEventHotKey(status) => {
                "RegisterEventHotKey failed with status "@ + decimal(*status as int)
            },
            HotkeyError::PureWayland => {
                "Global overlay hotkey is not supported under pure Wayland. Run Zed under XWayland (set DISPLAY) to enable it."@
            },
        }
    }

    /// What to tell the user.
    pub fn message(&self) -> (message: String)
        ensures
            message@ == self.text(),
    {
        match self {
            HotkeyError::InstallEventHandler(status) => {
                "InstallEventHandler failed with status ".to_owned().concat(
                    decimal_text(*status).as_str(),
                )
            },
            HotkeyError::RegisterEventHotKey(status) => {
                "RegisterEventHotKey failed with status ".to_owned().concat(
                    decimal_text(*status).as_str(),
                )
            },
            HotkeyError::PureWayland => {
                "Global overlay hotkey is not supported under pure Wayland. Run Zed under XWayland (set DISPLAY) to enable it.".to_owned()
            },
        }
    }
}

/// Decimal digits are those of positional notation: one digit stands for itself, and writing one
/// more digit behind a number is ten times the number and that digit. A negative number is a
/// minus sign and its opposite.
pub proof fn decimal_is_positional(n: nat, d: nat)
    requires
        d < 10,
    ensures
        decimal(d as int).len() == 1,
        decimal(d as int)[0] as int == 48 + d,
        n > 0 ==> {
            let longer = decimal((10 * n + d) as int);
            &&& longer.len() == decimal(n as int).len() + 1
            &&& longer.drop_last() == decimal(n as int)
            &&& longer.last() as int == 48 + d
            &&& decimal(-(n as int)).len() == decimal(n as int).len() + 1
            &&& decimal(-(n as int))[0] == '-'
            &&& decimal(-(n as int)).drop_first() == decimal(n as int)
        },
{
    if n > 0 {
        assert((10 * n + d) / 10 == n && (10 * n + d) % 10 == d);
        assert(decimal((10 * n + d) as int).drop_last() =~= decimal(n as int));
        assert(decimal(-(n as int)).drop_first() =~= decimal(n as int));
    }
}

/// The text of a refusal by Carbon names the call that was refused and ends in its status,
/// whatever that is.
pub proof fn refusals_name_the_call_and_the_status(status: i32)
    ensures
        HotkeyError::InstallEventHandler(status).text()
            == "InstallEventHandler failed with status "@ + decimal(status as int),
        HotkeyError::RegisterEventHotKey(status).text()
            == "RegisterEventHotKey failed with status "@ + decimal(status as int),
{
}

} // verus!
