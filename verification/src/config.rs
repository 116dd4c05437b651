//! The server's configuration, as the command line hands it over.

use vstd::prelude::*;

use crate::text::decimal;
use crate::text::push_decimal;

verus! {

/// An IPv4 address, as its four octets from the most significant down.
#[derive(Clone, Copy, Debug, PartialEq, Eq, Structural)]
pub struct Address {
    pub a: u8,
    pub b: u8,
    pub c: u8,
    pub d: u8,
}

/// What the server was asked to do. It is fixed once the arguments are read.
#[derive(Clone, Debug, PartialEq, Eq)]
pub struct Opt {
    /// The port to serve on; `None` asks for the first free one.
    pub port: Option<u16>,
    /// The address to bind to.
    pub address: Address,
    /// The directory whose files are served.
    pub path: String,
    /// Whether the start-up banners are left out.
    pub silent: bool,
}

impl Default for Opt {
    /// Every interface, the first free port, the working directory, and the
    /// banners shown.
    fn default() -> (opt: Opt)
        ensures
            opt.port is None,
            opt.address == Address::spec_unspecified(),
            opt.path@ == "./"@,
            !opt.silent,
    {
        Opt { port: None, address: Address::unspecified(), path: "./".to_owned(), silent: false }
    }
}

impl Address {
    /// `0.0.0.0`: every interface of the machine.
    pub open spec fn spec_unspecified() -> Address {
        Address { a: 0, b: 0, c: 0, d: 0 }
    }

    /// The address in dotted decimal notation.
    pub open spec fn text(self) -> Seq<char> {
        decimal(self.a as nat) + "."@ + decimal(self.b as nat) + "."@ + decimal(self.c as nat)
            + "."@ + decimal(self.d as nat)
    }

    /// The address in dotted decimal notation, such as `127.0.0.1`.
    pub fn to_text(&self) -> (s: String)
        ensures
            s@ == self.text(),
    {
        let mut s = String::new();
        push_decimal(&mut s, self.a as u64);
        s.append(".");
        push_decimal(&mut s, self.b as u64);
        s.append(".");
        push_decimal(&mut s, self.c as u64);
        s.append(".");
        push_decimal(&mut s, self.d as u64);
        assert(s@ =~= self.text());
        s
    }

    /// The address `a.b.c.d`.
    pub fn new(a: u8, b: u8, c: u8, d: u8) -> (r: Address)
        ensures
            r == (Address { a, b, c, d }),
    {
        Address { a, b, c, d }
    }

    /// `0.0.0.0`: every interface of the machine.
    pub fn unspecified() -> (r: Address)
        ensures
            r == Address::spec_unspecified(),
    {
        Address { a: 0, b: 0, c: 0, d: 0 }
    }

    /// The four octets, most significant first.
    pub fn octets(&self) -> (r: [u8; 4])
        ensures
            r@ == seq![self.a, self.b, self.c, self.d],
    {
        [self.a, self.b, self.c, self.d]
    }
}

} // verus!
