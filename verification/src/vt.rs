use vstd::prelude::*;

verus! {

/// The number of a virtual terminal, as the kernel counts them (`/dev/ttyN`).
#[derive(Debug, Clone, Copy, PartialEq, Eq, Structural)]
pub struct VtNumber(pub i32);

impl VtNumber {
    /// The terminal number as the kernel reports the active one
    /// (`vt_stat.v_active`, an unsigned short): every such value fits.
    pub fn from_active(v_active: u16) -> (n: VtNumber)
        ensures
            n.0 == v_active,
    {
        VtNumber(v_active as i32)
    }
}

/// A virtual terminal known to the locker. `allocated` records whether the
/// locker itself asked for it (and so must release it when done with it) or
/// merely refers to a terminal that already existed.
#[derive(Debug)]
pub struct Vt {
    pub number: VtNumber,
    pub allocated: bool,
}

/// The character of the decimal digit `d`.
pub open spec fn digit_char(d: nat) -> char {
    (48 + d) as char
}

/// The decimal digits of `n`, most significant first, without leading zeros.
pub open spec fn decimal(n: nat) -> Seq<char>
    decreases n,
{
    if n < 10 {
        seq![digit_char(n)]
    } else {
        decimal(n / 10).push(digit_char(n % 10))
    }
}

/// The decimal notation of an integer, with a leading `-` when negative.
pub open spec fn signed_decimal(i: int) -> Seq<char> {
    if i < 0 {
        seq!['-'] + decimal((-i) as nat)
    } else {
        decimal(i as nat)
    }
}

/// The path of the device node of terminal `n`: `/dev/tty` followed by `n`
/// in decimal.
pub open spec fn tty_path_spec(n: int) -> Seq<char> {
    seq!['/', 'd', 'e', 'v', '/', 't', 't', 'y'] + signed_decimal(n)
}

fn digit_str(d: u32) -> (s: &'static str)
    requires
        d < 10,
    ensures
        s@ == seq![digit_char(d as nat)],
{
    if d == 0 {
        proof { reveal_strlit("0"); }
        "0"
    } else if d == 1 {
        proof { reveal_strlit("1"); }
        "1"
    } else if d == 2 {
        proof { reveal_strlit("2"); }
        "2"
    } else if d == 3 {
        proof { reveal_strlit("3"); }
        "3"
    } else if d == 4 {
        proof { reveal_strlit("4"); }
        "4"
    } else if d == 5 {
        proof { reveal_strlit("5"); }
        "5"
    } else if d == 6 {
        proof { reveal_strlit("6"); }
        "6"
    } else if d == 7 {
        proof { reveal_strlit("7"); }
        "7"
    } else if d == 8 {
        proof { reveal_strlit("8"); }
        "8"
    } else {
        proof { reveal_strlit("9"); }
        "9"
    }
}

fn push_decimal(s: &mut String, n: u32)
    ensures
        final(s)@ == old(s)@ + decimal(n as nat),
    decreases n,
{
    if n >= 10 {
        push_decimal(s, n / 10);
    }
    s.append(digit_str(n % 10));
    proof {
        assert(old(s)@ + decimal(n as nat) =~= final(s)@);
    }
}

/// Appends the decimal notation of `n` to `s`.
fn push_signed_decimal(s: &mut String, n: i32)
    ensures
        final(s)@ == old(s)@ + signed_decimal(n as int),
{
    if n < 0 {
        proof { reveal_strlit("-"); }
        s.append("-");
        let magnitude: u32 = (-(n as i64)) as u32;
        push_decimal(s, magnitude);
        assert(s@ =~= old(s)@ + signed_decimal(n as int));
    } else {
        push_decimal(s, n as u32);
    }
}

impl Vt {
    /// A terminal that the locker allocated itself (the kernel's answer to a
    /// query for a free terminal); it is to be released when done.
    pub fn allocate_with_number(number: VtNumber) -> (vt: Vt)
        ensures
            vt.number == number,
            vt.allocated,
    {
        Vt { number, allocated: true }
    }

    /// A terminal that already existed; it is never released by the locker.
    pub fn with_number(number: VtNumber) -> (vt: Vt)
        ensures
            vt.number == number,
            !vt.allocated,
    {
        Vt { number, allocated: false }
    }

    /// The device node through which the terminal is read and written.
    pub fn tty_path(&self) -> (path: String)
        ensures
            path@ == tty_path_spec(self.number.0 as int),
    {
        let mut path = String::from_str("/dev/tty");
        proof { reveal_strlit("/dev/tty"); }
        push_signed_decimal(&mut path, self.number.0);
        path
    }
}

} // verus!
