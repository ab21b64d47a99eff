//! Storage helpers for Direct-IP messages.
//!
//! The persistence backends themselves live outside the codec: they do file,
//! database and clock work. What is verified here is everything they decide:
//! the in-memory store's bookkeeping, the layout of the filesystem path a
//! message is saved under, and the parsing of the storage URI scheme.

use vstd::prelude::*;

use crate::Message;

verus! {

/// In-memory message store: keeps every saved message, in order.
#[derive(Debug)]
pub struct VolatileStorage {
    data: Vec<Message>,
}

impl View for VolatileStorage {
    type V = Seq<Message>;

    closed spec fn view(&self) -> Seq<Message> {
        self.data@
    }
}

impl VolatileStorage {
    /// A fresh, empty store.
    pub fn connect() -> (r: VolatileStorage)
        ensures
            r@ == Seq::<Message>::empty(),
    {
        let r = VolatileStorage { data: Vec::new() };
        proof {
            assert(r@ =~= Seq::<Message>::empty());
        }
        r
    }

    /// Append a message to the store.
    pub fn save(&mut self, msg: Message)
        ensures
            final(self)@ == old(self)@.push(msg),
    {
        self.data.push(msg);
    }

    /// The number of stored messages.
    pub fn len(&self) -> (r: usize)
        ensures
            r == self@.len(),
    {
        self.data.len()
    }

    /// The `i`-th stored message, in order of saving.
    pub fn get(&self, i: usize) -> (r: &Message)
        requires
            i < self@.len(),
        ensures
            r == self@[i as int],
    {
        &self.data[i]
    }
}

/// The lowercase hexadecimal digit of a value below 16, as an ASCII byte.
pub open spec fn hex_digit(n: u8) -> u8 {
    if n < 10 {
        (0x30 + n) as u8
    } else {
        (0x57 + n) as u8
    }
}

/// The two lowercase hexadecimal digits of a byte.
pub open spec fn hex_byte(b: u8) -> Seq<u8> {
    seq![hex_digit(b / 16), hex_digit(b % 16)]
}

/// A byte string rendered as lowercase hexadecimal, two digits per byte.
pub open spec fn hex_of(s: Seq<u8>) -> Seq<u8>
    decreases s.len(),
{
    if s.len() == 0 {
        Seq::empty()
    } else {
        hex_byte(s[0]) + hex_of(s.drop_first())
    }
}

/// Rendering a concatenation is the concatenation of the renderings.
pub proof fn lemma_hex_of_concat(a: Seq<u8>, b: Seq<u8>)
    ensures
        hex_of(a + b) == hex_of(a) + hex_of(b),
    decreases a.len(),
{
    if a.len() == 0 {
        assert(a + b =~= b);
        assert(hex_of(a) + hex_of(b) =~= hex_of(b));
    } else {
        assert((a + b).drop_first() =~= a.drop_first() + b);
        lemma_hex_of_concat(a.drop_first(), b);
        assert(hex_of(a + b) =~= hex_of(a) + hex_of(b));
    }
}

/// Render a byte string as lowercase hexadecimal ASCII, two digits per byte.
pub fn to_hex(bytes: &[u8]) -> (r: Vec<u8>)
    ensures
        r@ == hex_of(bytes@),
{
    let n = bytes.len();
    let mut out: Vec<u8> = Vec::new();
    let mut i: usize = 0;
    while i < n
        invariant
            i <= n,
            n == bytes@.len(),
            out@ == hex_of(bytes@.take(i as int)),
        decreases n - i,
    {
        let b = bytes[i];
        out.push(if b / 16 < 10 {
            0x30 + b / 16
        } else {
            0x57 + b / 16
        });
        out.push(if b % 16 < 10 {
            0x30 + b % 16
        } else {
            0x57 + b % 16
        });
        i = i + 1;
        proof {
            assert(bytes@.take(i as int) =~= bytes@.take(i - 1) + seq![bytes@[i - 1]]);
            lemma_hex_of_concat(bytes@.take(i - 1), seq![bytes@[i - 1]]);
            assert(seq![bytes@[i - 1]].drop_first() =~= Seq::<u8>::empty());
            assert(hex_of(Seq::<u8>::empty()) == Seq::<u8>::empty());
            assert(hex_of(seq![bytes@[i - 1]]) == hex_byte(bytes@[i - 1]) + hex_of(
                seq![bytes@[i - 1]].drop_first(),
            ));
            assert(hex_of(seq![bytes@[i - 1]]) =~= hex_byte(bytes@[i - 1]));
            assert(out@ =~= hex_of(bytes@.take(i as int)));
        }
    }
    proof {
        assert(bytes@.take(n as int) =~= bytes@);
    }
    out
}

/// The directory name of a message's modem: its IMEI as 30 lowercase
/// hexadecimal characters, or the literal `Unknown` when the message has no
/// header.
pub open spec fn imei_dir(imei: Option<[u8; 15]>) -> Seq<u8> {
    match imei {
        Some(i) => hex_of(i@),
        None => seq![0x55u8, 0x6e, 0x6b, 0x6e, 0x6f, 0x77, 0x6e],
    }
}

/// The path a message is saved under, relative to the store's root:
/// `data/<imei-hex>/<year>/<stamp>.isbd`, with `/` separators and the given
/// year and timestamp rendered by the caller.
pub open spec fn spec_save_path(
    root: Seq<u8>,
    imei: Option<[u8; 15]>,
    year: Seq<u8>,
    stamp: Seq<u8>,
) -> Seq<u8> {
    root + seq![0x2fu8, 0x64, 0x61, 0x74, 0x61, 0x2f] + imei_dir(imei) + seq![0x2fu8] + year
        + seq![0x2fu8] + stamp + seq![0x2eu8, 0x69, 0x73, 0x62, 0x64]
}

/// Filesystem message store: computes, for each message, the path it is
/// persisted under. Opening the directory, creating it, and writing the
/// encoded bytes are the caller's work; what is verified is the path.
#[derive(Debug)]
pub struct FileSystemStorage {
    root: Vec<u8>,
}

impl View for FileSystemStorage {
    type V = Seq<u8>;

    closed spec fn view(&self) -> Seq<u8> {
        self.root@
    }
}

impl FileSystemStorage {
    /// A store rooted at the given directory path.
    pub fn connect(root: Vec<u8>) -> (r: FileSystemStorage)
        ensures
            r@ == root@,
    {
        FileSystemStorage { root }
    }

    /// The path `msg` is saved under: `<root>/data/<imei-hex>/<year>/<stamp>.isbd`,
    /// where `<imei-hex>` is the message's IMEI as 30 lowercase hex
    /// characters (or `Unknown` when the message has no header), and `year`
    /// and `stamp` name the moment of saving, rendered by the caller.
    pub fn save_path(&self, msg: &Message, year: &[u8], stamp: &[u8]) -> (r: Vec<u8>)
        ensures
            r@ == spec_save_path(self@, msg.imei_spec(), year@, stamp@),
    {
        let mut out: Vec<u8> = Vec::new();
        crate::bytes::put_bytes(&mut out, self.root.as_slice());
        out.push(0x2f);
        out.push(0x64);
        out.push(0x61);
        out.push(0x74);
        out.push(0x61);
        out.push(0x2f);
        match msg.imei() {
            Some(imei) => {
                let hex = to_hex(imei.as_slice());
                crate::bytes::put_bytes(&mut out, hex.as_slice());
            },
            None => {
                out.push(0x55);
                out.push(0x6e);
                out.push(0x6b);
                out.push(0x6e);
                out.push(0x6f);
                out.push(0x77);
                out.push(0x6e);
            },
        }
        out.push(0x2f);
        crate::bytes::put_bytes(&mut out, year);
        out.push(0x2f);
        crate::bytes::put_bytes(&mut out, stamp);
        out.push(0x2e);
        out.push(0x69);
        out.push(0x73);
        out.push(0x62);
        out.push(0x64);
        proof {
            assert(out@ =~= spec_save_path(self@, msg.imei_spec(), year@, stamp@));
        }
        out
    }
}

/// The backend named by a storage URI.
#[derive(Debug, PartialEq, Eq)]
pub enum StorageConfig {
    /// `volatile://`: the in-memory store.
    Volatile,
    /// `filesystem://<path>`: the filesystem store rooted at `<path>`.
    Filesystem(Vec<u8>),
    /// `sqlite://<dsn>`: a SQL store with a single blob column.
    Sqlite(Vec<u8>),
}

/// Whether `b` starts with `p`.
pub open spec fn starts_with(b: Seq<u8>, p: Seq<u8>) -> bool {
    b.len() >= p.len() && b.subrange(0, p.len() as int) == p
}

/// Whether `cfg` names a known storage scheme.
pub open spec fn cfg_parses(cfg: Seq<u8>) -> bool {
    ||| starts_with(cfg, "volatile://"@.map_values(|c: char| c as u8))
    ||| starts_with(cfg, "filesystem://"@.map_values(|c: char| c as u8))
    ||| starts_with(cfg, "sqlite://"@.map_values(|c: char| c as u8))
}

/// Test whether `b` starts with `p`.
pub fn bytes_start_with(b: &[u8], p: &[u8]) -> (r: bool)
    ensures
        r == starts_with(b@, p@),
{
    let np = p.len();
    if b.len() < np {
        proof {
            assert(!starts_with(b@, p@));
        }
        return false;
    }
    let mut i: usize = 0;
    while i < np
        invariant
            i <= np,
            np == p@.len(),
            b@.len() >= np,
            forall|k: int| 0 <= k < i ==> b@[k] == p@[k],
        decreases np - i,
    {
        if b[i] != p[i] {
            proof {
                assert(b@.subrange(0, np as int)[i as int] != p@[i as int]);
            }
            return false;
        }
        i = i + 1;
    }
    proof {
        assert(b@.subrange(0, np as int) =~= p@);
    }
    true
}

impl StorageConfig {
    /// Parse a storage URI: `volatile://`, `filesystem://<path>` or
    /// `sqlite://<dsn>`. Any other scheme is unknown.
    pub fn parse(cfg: &[u8]) -> (r: Option<StorageConfig>)
        ensures
            r is Some <==> cfg_parses(cfg@),
            starts_with(cfg@, "volatile://"@.map_values(|c: char| c as u8)) ==> r == Some(
                StorageConfig::Volatile,
            ),
            !starts_with(cfg@, "volatile://"@.map_values(|c: char| c as u8)) && starts_with(
                cfg@,
                "filesystem://"@.map_values(|c: char| c as u8),
            ) ==> r is Some && r->0 is Filesystem && r->0->Filesystem_0@ == cfg@.skip(13),
            !starts_with(cfg@, "volatile://"@.map_values(|c: char| c as u8)) && !starts_with(
                cfg@,
                "filesystem://"@.map_values(|c: char| c as u8),
            ) && starts_with(cfg@, "sqlite://"@.map_values(|c: char| c as u8)) ==> r is Some
                && r->0 is Sqlite && r->0->Sqlite_0@ == cfg@.skip(9),
    {
        let volatile_scheme: [u8; 11] = [
            0x76, 0x6f, 0x6c, 0x61, 0x74, 0x69, 0x6c, 0x65, 0x3a, 0x2f, 0x2f,
        ];
        let filesystem_scheme: [u8; 13] = [
            0x66, 0x69, 0x6c, 0x65, 0x73, 0x79, 0x73, 0x74, 0x65, 0x6d, 0x3a, 0x2f, 0x2f,
        ];
        let sqlite_scheme: [u8; 9] = [0x73, 0x71, 0x6c, 0x69, 0x74, 0x65, 0x3a, 0x2f, 0x2f];
        proof {
            reveal_strlit("volatile://");
            reveal_strlit("filesystem://");
            reveal_strlit("sqlite://");
            assert(volatile_scheme@ =~= "volatile://"@.map_values(|c: char| c as u8));
            assert(filesystem_scheme@ =~= "filesystem://"@.map_values(|c: char| c as u8));
            assert(sqlite_scheme@ =~= "sqlite://"@.map_values(|c: char| c as u8));
        }
        if bytes_start_with(cfg, volatile_scheme.as_slice()) {
            Some(StorageConfig::Volatile)
        } else if bytes_start_with(cfg, filesystem_scheme.as_slice()) {
            let rest = vstd::slice::slice_subrange(cfg, 13, cfg.len());
            let root = vstd::slice::slice_to_vec(rest);
            proof {
                assert(root@ =~= cfg@.skip(13));
            }
            Some(StorageConfig::Filesystem(root))
        } else if bytes_start_with(cfg, sqlite_scheme.as_slice()) {
            let rest = vstd::slice::slice_subrange(cfg, 9, cfg.len());
            let dsn = vstd::slice::slice_to_vec(rest);
            proof {
                assert(dsn@ =~= cfg@.skip(9));
            }
            Some(StorageConfig::Sqlite(dsn))
        } else {
            None
        }
    }
}

/// Sum of two sizes, as used by storage catalogs when accounting for stored
/// items.
pub fn add(left: usize, right: usize) -> (r: usize)
    requires
        left + right <= usize::MAX,
    ensures
        r == left + right,
{
    left + right
}

} // verus!
