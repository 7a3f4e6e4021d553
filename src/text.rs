use vstd::prelude::*;
use crate::device::PairedDevice;

verus! {

/// The character of a decimal digit.
pub open spec fn digit_char(d: nat) -> char
    recommends
        d < 10,
{
    seq!['0', '1', '2', '3', '4', '5', '6', '7', '8', '9'][d as int]
}

/// `n` written in decimal, without sign or leading zeros.
pub open spec fn decimal_of(n: nat) -> Seq<char>
    decreases n,
{
    if n < 10 {
        seq![digit_char(n)]
    } else {
        decimal_of(n / 10).push(digit_char(n % 10))
    }
}

proof fn lemma_digit_char_injective(x: nat, y: nat)
    requires
        x < 10,
        y < 10,
        digit_char(x) == digit_char(y),
    ensures
        x == y,
{
    let s = seq!['0', '1', '2', '3', '4', '5', '6', '7', '8', '9'];
    assert(s[0] == '0' && s[1] == '1' && s[2] == '2' && s[3] == '3' && s[4] == '4');
    assert(s[5] == '5' && s[6] == '6' && s[7] == '7' && s[8] == '8' && s[9] == '9');
}

/// Different numbers are written differently: no two menu entries carry the
/// same ordinal, and the connection marker tells the two states apart.
pub proof fn lemma_ordinals_distinct(a: nat, b: nat)
    requires
        a != b,
    ensures
        decimal_of(a) != decimal_of(b),
        marker_of(true) != marker_of(false),
    decreases a,
{
    assert(marker_of(true)[1] != marker_of(false)[1]);
    if decimal_of(a) == decimal_of(b) {
        if a < 10 && b < 10 {
            assert(decimal_of(a)[0] == digit_char(a));
            assert(decimal_of(b)[0] == digit_char(b));
            lemma_digit_char_injective(a, b);
        } else if a >= 10 && b >= 10 {
            let da = decimal_of(a / 10);
            let db = decimal_of(b / 10);
            assert(da.push(digit_char(a % 10)).last() == db.push(digit_char(b % 10)).last());
            lemma_digit_char_injective(a % 10, b % 10);
            assert(da =~= decimal_of(a).drop_last());
            assert(db =~= decimal_of(b).drop_last());
            lemma_ordinals_distinct(a / 10, b / 10);
        } else if a < 10 {
            assert(decimal_of(b).len() == decimal_of(b / 10).len() + 1);
            assert(decimal_of(b / 10).len() >= 1);
        } else {
            assert(decimal_of(a).len() == decimal_of(a / 10).len() + 1);
            assert(decimal_of(a / 10).len() >= 1);
        }
    }
}

/// What `{:?}` prints for a string: the text in double quotes, escaped.
pub uninterp spec fn debug_text_of(s: Seq<char>) -> Seq<char>;

/// Relies on `Display` for `usize`: the number in decimal digits.
#[verifier::external_body]
fn decimal(n: usize) -> (r: String)
    ensures
        r@ == decimal_of(n as nat),
{
    n.to_string()
}

/// Relies on `Debug` for `str`: the quoted, escaped form of the text.
#[verifier::external_body]
fn debug_text(s: &str) -> (r: String)
    ensures
        r@ == debug_text_of(s@),
{
    format!("{:?}", s)
}

/// Marker printed between an ordinal and a device name.
pub open spec fn marker_of(connected: bool) -> Seq<char> {
    if connected {
        seq![' ', 'x', ' ']
    } else {
        seq![' ', ' ', ' ']
    }
}

/// One menu entry: the ordinal, a closing parenthesis, the marker, the name.
pub open spec fn entry_text(ordinal: nat, connected: bool, shown_name: Seq<char>) -> Seq<char> {
    decimal_of(ordinal) + seq![')'] + marker_of(connected) + shown_name
}

/// The first line of the device menu.
pub open spec fn header_text() -> Seq<char> {
    "Bluetooth Devices"@
}

/// The menu line for the device at `ordinal`, given its name as it is shown.
pub fn menu_entry(ordinal: usize, connected: bool, shown_name: &str) -> (r: String)
    ensures
        r@ == entry_text(ordinal as nat, connected, shown_name@),
{
    let mut line = decimal(ordinal);
    line.append(")");
    if connected {
        line.append(" x ");
    } else {
        line.append("   ");
    }
    line.append(shown_name);
    proof {
        reveal_strlit(")");
        reveal_strlit(" x ");
        reveal_strlit("   ");
    }
    line
}

/// The device menu: a header, then line `k` for the `k`-th device, counting
/// from one, with the connection marker and the quoted name.
pub fn menu_lines(devices: &Vec<PairedDevice>) -> (r: Vec<String>)
    requires
        devices@.len() < usize::MAX,
    ensures
        r@.len() == devices@.len() + 1,
        r@[0]@ == header_text(),
        forall|k: int|
            1 <= k <= devices@.len() ==> #[trigger] r@[k]@ == entry_text(
                k as nat,
                devices@[k - 1].connected,
                debug_text_of(devices@[k - 1].name@),
            ),
{
    let mut lines: Vec<String> = Vec::new();
    lines.push("Bluetooth Devices".to_owned());
    let mut i: usize = 0;
    while i < devices.len()
        invariant
            i <= devices@.len() < usize::MAX,
            lines@.len() == i + 1,
            lines@[0]@ == header_text(),
            forall|k: int|
                1 <= k <= i ==> #[trigger] lines@[k]@ == entry_text(
                    k as nat,
                    devices@[k - 1].connected,
                    debug_text_of(devices@[k - 1].name@),
                ),
        decreases devices@.len() - i,
    {
        let shown = debug_text(devices[i].name.as_str());
        let line = menu_entry(i + 1, devices[i].connected, shown.as_str());
        lines.push(line);
        i = i + 1;
    }
    lines
}

/// The line that names the chosen device.
pub open spec fn selected_text(shown_name: Seq<char>) -> Seq<char> {
    "Selected Device: "@ + shown_name
}

/// Prints which device was chosen, with its name quoted.
pub fn selected_line(device: &PairedDevice) -> (r: String)
    ensures
        r@ == selected_text(debug_text_of(device.name@)),
{
    let shown = debug_text(device.name.as_str());
    let mut line = "Selected Device: ".to_owned();
    line.append(shown.as_str());
    line
}

/// The label of action one: it undoes the current connection state.
pub open spec fn toggle_label(connected: bool) -> Seq<char> {
    if connected {
        "Disconnect"@
    } else {
        "Connect"@
    }
}

/// The action menu for a device that is or is not connected.
pub fn action_lines(connected: bool) -> (r: Vec<String>)
    ensures
        r@.len() == 2,
        r@[0]@ == "1) "@ + toggle_label(connected),
        r@[1]@ == "0) Forget This Device"@,
{
    let mut first = "1) ".to_owned();
    if connected {
        first.append("Disconnect");
    } else {
        first.append("Connect");
    }
    let mut lines: Vec<String> = Vec::new();
    lines.push(first);
    lines.push("0) Forget This Device".to_owned());
    lines
}

} // verus!
