use vstd::prelude::*;

verus! {

/// A half-open span of offsets into the cartridge image.
#[derive(Clone, Copy, Debug, PartialEq, Eq, Structural)]
pub struct Range {
    pub start: usize,
    pub end: usize,
}

impl Default for Range {
    fn default() -> (r: Range)
        ensures
            r.start == 0,
            r.end == 1,
    {
        Range { start: 0, end: 1 }
    }
}

/// A named field of the cartridge header.
#[derive(Clone, Copy, Debug)]
pub struct Header {
    pub name: &'static str,
    pub range: Range,
    pub format: &'static str,
}

impl Header {
    pub fn new(name: &'static str, range: Range) -> (h: Header)
        ensures
            h.name == name,
            h.range == range,
            h.format@ == ""@,
    {
        Self::with_format(name, range, "")
    }

    pub fn with_format(name: &'static str, range: Range, format: &'static str) -> (h: Header)
        ensures
            h.name == name,
            h.range == range,
            h.format == format,
    {
        Header { name, range, format }
    }
}

/// Offsets of the header checksum byte and of the bytes it covers.
pub const CHECKSUM_START: usize = 0x134;

pub const CHECKSUM_END: usize = 0x14D;

/// Number of named fields in the header table.
pub const HEADER_COUNT: usize = 17;

/// Sum of `mem[k] + 1` over `CHECKSUM_START <= k < end`.
pub open spec fn header_sum(mem: Seq<u8>, end: int) -> int
    decreases end,
{
    if end <= CHECKSUM_START {
        0
    } else {
        header_sum(mem, end - 1) + mem[end - 1] + 1
    }
}

/// The header checksum of an image: minus the sum of `byte + 1` over the
/// header bytes 0x134..0x14D, modulo 256.
pub open spec fn header_checksum(mem: Seq<u8>) -> u8 {
    ((0 - header_sum(mem, CHECKSUM_END as int)) % 256) as u8
}

/// Sum of `mem[k]` over `0 <= k < end`.
pub open spec fn byte_sum(mem: Seq<u8>, end: int) -> int
    decreases end,
{
    if end <= 0 {
        0
    } else {
        byte_sum(mem, end - 1) + mem[end - 1]
    }
}

/// The global checksum of an image: the sum of all its bytes but the two
/// checksum bytes at 0x14D and 0x14E, modulo 0x10000.
pub open spec fn global_checksum_of(mem: Seq<u8>) -> u16 {
    ((byte_sum(mem, mem.len() as int) - mem[0x14D] - mem[0x14E]) % 0x10000) as u16
}

/// Whether an image is well formed: it holds the header and the header
/// checksum byte at 0x14D matches the header bytes.
pub open spec fn image_is_valid(mem: Seq<u8>) -> bool {
    mem.len() > CHECKSUM_END && header_checksum(mem) == mem[CHECKSUM_END as int]
}

/// The span of the `i`-th field of the header table.
pub open spec fn header_span(i: int) -> (usize, usize) {
    if i == 0 { (0x100, 0x104) }
    else if i == 1 { (0x104, 0x134) }
    else if i == 2 { (0x134, 0x144) }
    else if i == 3 { (0x13F, 0x142) }
    else if i == 4 { (0x143, 0x144) }
    else if i == 5 { (0x144, 0x146) }
    else if i == 6 { (0x146, 0x147) }
    else if i == 7 { (0x147, 0x148) }
    else if i == 8 { (0x148, 0x149) }
    else if i == 9 { (0x149, 0x14A) }
    else if i == 10 { (0x14A, 0x14B) }
    else if i == 11 { (0x14B, 0x14C) }
    else if i == 12 { (0x14C, 0x14D) }
    else if i == 13 { (0x14D, 0x14E) }
    else if i == 14 { (0x14E, 0x150) }
    else if i == 15 { (0x134, 0x14D) }
    else { (0x100, 0x14F) }
}

/// The name of the `i`-th field of the header table.
pub open spec fn header_name(i: int) -> Seq<char> {
    if i == 0 { "entry point"@ }
    else if i == 1 { "logo"@ }
    else if i == 2 { "title"@ }
    else if i == 3 { "manufacturer"@ }
    else if i == 4 { "color game boy"@ }
    else if i == 5 { "new licensee"@ }
    else if i == 6 { "super game boy"@ }
    else if i == 7 { "cart type"@ }
    else if i == 8 { "rom size"@ }
    else if i == 9 { "ram size"@ }
    else if i == 10 { "destination"@ }
    else if i == 11 { "old licensee"@ }
    else if i == 12 { "make rom version"@ }
    else if i == 13 { "header checksum"@ }
    else if i == 14 { "global checksum"@ }
    else if i == 15 { "short header"@ }
    else { "full header"@ }
}

/// The display format of the `i`-th field: the title is shown as text, every
/// other field as bytes.
pub open spec fn header_format(i: int) -> Seq<char> {
    if i == 2 { "string"@ } else { ""@ }
}

pub open spec fn is_header_table(headers: Seq<Header>) -> bool {
    &&& headers.len() == HEADER_COUNT
    &&& forall|i: int| 0 <= i < HEADER_COUNT ==>
            (#[trigger] headers[i]).range.start == header_span(i).0
            && headers[i].range.end == header_span(i).1
            && headers[i].name@ == header_name(i)
            && headers[i].format@ == header_format(i)
}

/// A header field without a display format.
pub fn make_header(name: &'static str, start: usize, end: usize) -> (h: Header)
    ensures
        h.name == name,
        h.range == (Range { start, end }),
        h.format@ == ""@,
{
    Header::new(name, Range { start, end })
}

fn header_table() -> (headers: Vec<Header>)
    ensures
        is_header_table(headers@),
{
    let mut v: Vec<Header> = Vec::new();
    v.push(make_header("entry point", 0x100, 0x104));
    v.push(make_header("logo", 0x104, 0x134));
    v.push(Header::with_format("title", Range { start: 0x134, end: 0x144 }, "string"));
    v.push(make_header("manufacturer", 0x13F, 0x142));
    v.push(make_header("color game boy", 0x143, 0x144));
    v.push(make_header("new licensee", 0x144, 0x146));
    v.push(make_header("super game boy", 0x146, 0x147));
    v.push(make_header("cart type", 0x147, 0x148));
    v.push(make_header("rom size", 0x148, 0x149));
    v.push(make_header("ram size", 0x149, 0x14A));
    v.push(make_header("destination", 0x14A, 0x14B));
    v.push(make_header("old licensee", 0x14B, 0x14C));
    v.push(make_header("make rom version", 0x14C, 0x14D));
    v.push(make_header("header checksum", 0x14D, 0x14E));
    v.push(make_header("global checksum", 0x14E, 0x150));
    v.push(make_header("short header", 0x134, 0x14D));
    v.push(make_header("full header", 0x100, 0x14F));
    assert(is_header_table(v@)) by {
        assert forall|i: int| 0 <= i < HEADER_COUNT implies
            (#[trigger] v@[i]).range.start == header_span(i).0
            && v@[i].range.end == header_span(i).1
            && v@[i].name@ == header_name(i)
            && v@[i].format@ == header_format(i) by {
        }
    }
    v
}

/// A loaded cartridge image, addressed by the same offsets the processor
/// uses, with the table of its header fields.
#[derive(Debug)]
pub struct Cart {
    pub mem: Vec<u8>,
    pub headers: Vec<Header>,
}

impl Default for Cart {
    /// A one-byte image of a single zero.
    fn default() -> (c: Cart)
        ensures
            c.mem@ == seq![0u8],
            is_header_table(c.headers@),
    {
        let mut mem: Vec<u8> = Vec::new();
        mem.push(0);
        assert(mem@ =~= seq![0u8]);
        Cart { mem, headers: header_table() }
    }
}

/// The cartridge of a loaded image.
pub fn cart(rom: Vec<u8>) -> (c: Cart)
    ensures
        c.mem@ == rom@,
        is_header_table(c.headers@),
{
    Cart::new(rom)
}

impl Cart {
    pub fn new(mem: Vec<u8>) -> (c: Cart)
        ensures
            c.mem@ == mem@,
            is_header_table(c.headers@),
    {
        Cart { mem, headers: header_table() }
    }

    /// The header checksum computed over 0x134..0x14D.
    pub fn checksum(&self) -> (r: u8)
        requires
            self.mem@.len() >= CHECKSUM_END,
        ensures
            r == header_checksum(self.mem@),
    {
        let mut acc: u8 = 0;
        let mut i: usize = CHECKSUM_START;
        while i < CHECKSUM_END
            invariant
                CHECKSUM_START <= i <= CHECKSUM_END,
                self.mem@.len() >= CHECKSUM_END,
                acc == (0 - header_sum(self.mem@, i as int)) % 256,
            decreases CHECKSUM_END - i,
        {
            let b = self.mem[i];
            let ghost s = header_sum(self.mem@, i as int);
            let acc1 = acc.wrapping_sub(b);
            proof {
                vstd::arithmetic::div_mod::lemma_sub_mod_noop(0 - s, b as int, 256);
                vstd::arithmetic::div_mod::lemma_small_mod(b as nat, 256);
                assert(acc1 == (0 - s - b) % 256);
            }
            let acc2 = acc1.wrapping_sub(1);
            proof {
                vstd::arithmetic::div_mod::lemma_sub_mod_noop(0 - s - b, 1, 256);
                assert(acc2 == (0 - s - b - 1) % 256);
            }
            acc = acc2;
            i = i + 1;
        }
        acc
    }

    /// The global checksum: all bytes summed modulo 0x10000, less the bytes
    /// at 0x14D and 0x14E.
    pub fn global_checksum(&self) -> (r: u16)
        requires
            self.mem@.len() > 0x14E,
        ensures
            r == global_checksum_of(self.mem@),
    {
        let n = self.mem.len();
        let mut acc: u16 = 0;
        let mut i: usize = 0;
        while i < n
            invariant
                i <= n,
                n == self.mem@.len(),
                acc == byte_sum(self.mem@, i as int) % 0x10000,
            decreases n - i,
        {
            let b = self.mem[i];
            let ghost s = byte_sum(self.mem@, i as int);
            let next = acc.wrapping_add(b as u16);
            proof {
                vstd::arithmetic::div_mod::lemma_add_mod_noop(s, b as int, 0x10000);
                vstd::arithmetic::div_mod::lemma_small_mod(b as nat, 0x10000);
                assert(next == (s + b) % 0x10000);
            }
            acc = next;
            i = i + 1;
        }
        let ghost s = byte_sum(self.mem@, n as int);
        let x = self.mem[0x14D] as u16;
        let y = self.mem[0x14E] as u16;
        let r1 = acc.wrapping_sub(x);
        proof {
            vstd::arithmetic::div_mod::lemma_sub_mod_noop(s, x as int, 0x10000);
            vstd::arithmetic::div_mod::lemma_small_mod(x as nat, 0x10000);
            assert(r1 == (s - x) % 0x10000);
        }
        let r2 = r1.wrapping_sub(y);
        proof {
            vstd::arithmetic::div_mod::lemma_sub_mod_noop(s - x, y as int, 0x10000);
            vstd::arithmetic::div_mod::lemma_small_mod(y as nat, 0x10000);
            assert(r2 == (s - x - y) % 0x10000);
        }
        r2
    }

    /// Whether the image holds a header whose checksum byte matches.
    pub fn is_valid(&self) -> (r: bool)
        ensures
            r == image_is_valid(self.mem@),
    {
        self.mem.len() > CHECKSUM_END && self.checksum() == self.mem[CHECKSUM_END]
    }

    /// The byte at `offset` of the image, if the image is that long.
    pub fn byte(&self, offset: usize) -> (r: Option<u8>)
        ensures
            r == if offset < self.mem@.len() { Some(self.mem@[offset as int]) } else { None },
    {
        if offset < self.mem.len() {
            Some(self.mem[offset])
        } else {
            None
        }
    }
}

} // verus!
