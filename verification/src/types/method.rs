use vstd::prelude::*;

use crate::text::str_equal;
use crate::types::flags::{UDbFlg, UDbFlgBit, selected_flags, select_flags, flag_has, lemma_selected_flags_contains, lemma_selected_flags_agree};

verus! {

/// One HTTP method, held as its flag bit.
#[derive(Clone, Copy, PartialEq, Eq, Structural, Debug)]
pub struct Method(pub UDbFlgBit);

/// The flag bits of the methods, in their fixed order.
pub open spec fn method_flags() -> Seq<UDbFlgBit> {
    seq![1i64, 2, 4, 8, 16, 32, 64, 128, 256]
}

/// The method named `name`; a name the service does not know stands for GET.
pub open spec fn method_of_name(name: Seq<char>) -> Method {
    if name == "OPTIONS"@ {
        Method(Method::METHOD_TYPE_OPTIONS)
    } else if name == "GET"@ {
        Method(Method::METHOD_TYPE_GET)
    } else if name == "POST"@ {
        Method(Method::METHOD_TYPE_POST)
    } else if name == "PUT"@ {
        Method(Method::METHOD_TYPE_PUT)
    } else if name == "DELETE"@ {
        Method(Method::METHOD_TYPE_DELETE)
    } else if name == "HEAD"@ {
        Method(Method::METHOD_TYPE_HEAD)
    } else if name == "TRACE"@ {
        Method(Method::METHOD_TYPE_TRACE)
    } else if name == "CONNECT"@ {
        Method(Method::METHOD_TYPE_CONNECT)
    } else if name == "PATCH"@ {
        Method(Method::METHOD_TYPE_PATCH)
    } else {
        Method(Method::METHOD_TYPE_GET)
    }
}

/// The HTTP name of a method; a value that is not one of the nine methods is named GET.
pub open spec fn name_of_method(m: Method) -> Seq<char> {
    if m.0 == Method::METHOD_TYPE_OPTIONS {
        "OPTIONS"@
    } else if m.0 == Method::METHOD_TYPE_GET {
        "GET"@
    } else if m.0 == Method::METHOD_TYPE_POST {
        "POST"@
    } else if m.0 == Method::METHOD_TYPE_PUT {
        "PUT"@
    } else if m.0 == Method::METHOD_TYPE_DELETE {
        "DELETE"@
    } else if m.0 == Method::METHOD_TYPE_HEAD {
        "HEAD"@
    } else if m.0 == Method::METHOD_TYPE_TRACE {
        "TRACE"@
    } else if m.0 == Method::METHOD_TYPE_CONNECT {
        "CONNECT"@
    } else if m.0 == Method::METHOD_TYPE_PATCH {
        "PATCH"@
    } else {
        "GET"@
    }
}

/// The bits of a list of methods.
pub open spec fn method_bits(ms: Seq<Method>) -> Seq<UDbFlgBit> {
    ms.map_values(|m: Method| m.0)
}

impl Method {
    pub const METHOD_TYPE_OPTIONS: UDbFlgBit = 1;
    pub const METHOD_TYPE_GET: UDbFlgBit = 2;
    pub const METHOD_TYPE_POST: UDbFlgBit = 4;
    pub const METHOD_TYPE_PUT: UDbFlgBit = 8;
    pub const METHOD_TYPE_DELETE: UDbFlgBit = 16;
    pub const METHOD_TYPE_HEAD: UDbFlgBit = 32;
    pub const METHOD_TYPE_TRACE: UDbFlgBit = 64;
    pub const METHOD_TYPE_CONNECT: UDbFlgBit = 128;
    pub const METHOD_TYPE_PATCH: UDbFlgBit = 256;

    /// The OPTIONS method.
    pub fn options() -> (r: Method)
        ensures
            r == Method(1),
    {
        Method(1)
    }

    /// The GET method.
    pub fn get() -> (r: Method)
        ensures
            r == Method(2),
    {
        Method(2)
    }

    /// The POST method.
    pub fn post() -> (r: Method)
        ensures
            r == Method(4),
    {
        Method(4)
    }

    /// The PUT method.
    pub fn put() -> (r: Method)
        ensures
            r == Method(8),
    {
        Method(8)
    }

    /// The DELETE method.
    pub fn delete() -> (r: Method)
        ensures
            r == Method(16),
    {
        Method(16)
    }

    /// The HEAD method.
    pub fn head() -> (r: Method)
        ensures
            r == Method(32),
    {
        Method(32)
    }

    /// The TRACE method.
    pub fn trace() -> (r: Method)
        ensures
            r == Method(64),
    {
        Method(64)
    }

    /// The CONNECT method.
    pub fn connect() -> (r: Method)
        ensures
            r == Method(128),
    {
        Method(128)
    }

    /// The PATCH method.
    pub fn patch() -> (r: Method)
        ensures
            r == Method(256),
    {
        Method(256)
    }


    pub const FLAGS: [UDbFlgBit; 9] = [1, 2, 4, 8, 16, 32, 64, 128, 256];

    /// The methods whose bit is set in `flag`, in the order of `FLAGS`.
    pub fn from_flag(flag: UDbFlg) -> (r: Vec<Method>)
        ensures
            method_bits(r@) == selected_flags(flag, method_flags()),
    {
        let flags = Self::FLAGS;
        assert(flags@ =~= method_flags());
        let bits = select_flags(flag, flags.as_slice());
        let mut r: Vec<Method> = Vec::new();
        let mut i: usize = 0;
        while i < bits.len()
            invariant
                i <= bits@.len(),
                r@.len() == i,
                forall|k: int| 0 <= k < i ==> #[trigger] r@[k].0 == bits@[k],
            decreases bits@.len() - i,
        {
            r.push(Method(bits[i]));
            i = i + 1;
        }
        assert(method_bits(r@) =~= bits@);
        r
    }

    /// The method that an HTTP method name stands for (GET for a name the service does not know).
    pub fn from_http_name(name: &str) -> (r: Method)
        ensures
            r == method_of_name(name@),
    {
        if str_equal(name, "OPTIONS") {
            Method::options()
        } else if str_equal(name, "GET") {
            Method::get()
        } else if str_equal(name, "POST") {
            Method::post()
        } else if str_equal(name, "PUT") {
            Method::put()
        } else if str_equal(name, "DELETE") {
            Method::delete()
        } else if str_equal(name, "HEAD") {
            Method::head()
        } else if str_equal(name, "TRACE") {
            Method::trace()
        } else if str_equal(name, "CONNECT") {
            Method::connect()
        } else if str_equal(name, "PATCH") {
            Method::patch()
        } else {
            Method::get()
        }
    }

    /// The HTTP name of this method (GET for a value that is not one of the nine methods).
    pub fn http_name(self) -> (r: &'static str)
        ensures
            r@ == name_of_method(self),
    {
        if self.0 == Self::METHOD_TYPE_OPTIONS {
            "OPTIONS"
        } else if self.0 == Self::METHOD_TYPE_GET {
            "GET"
        } else if self.0 == Self::METHOD_TYPE_POST {
            "POST"
        } else if self.0 == Self::METHOD_TYPE_PUT {
            "PUT"
        } else if self.0 == Self::METHOD_TYPE_DELETE {
            "DELETE"
        } else if self.0 == Self::METHOD_TYPE_HEAD {
            "HEAD"
        } else if self.0 == Self::METHOD_TYPE_TRACE {
            "TRACE"
        } else if self.0 == Self::METHOD_TYPE_CONNECT {
            "CONNECT"
        } else if self.0 == Self::METHOD_TYPE_PATCH {
            "PATCH"
        } else {
            "GET"
        }
    }
}

/// The name of each of the nine methods stands for that method, and the
/// method each of the nine names stands for is named by that name.
pub proof fn lemma_method_name_roundtrip(bit: UDbFlgBit, name: Seq<char>)
    ensures
        method_flags().contains(bit) ==> method_of_name(name_of_method(Method(bit))) == Method(bit),
        (exists|i: int| 0 <= i < method_flags().len() && name == #[trigger] name_of_method(Method(method_flags()[i])))
            ==> name_of_method(method_of_name(name)) == name,
{
    reveal_strlit("OPTIONS");
    reveal_strlit("GET");
    reveal_strlit("POST");
    reveal_strlit("PUT");
    reveal_strlit("DELETE");
    reveal_strlit("HEAD");
    reveal_strlit("TRACE");
    reveal_strlit("CONNECT");
    reveal_strlit("PATCH");
    if method_flags().contains(bit) {
        let i = choose|i: int| 0 <= i < method_flags().len() && method_flags()[i] == bit;
        assert(bit == 1 || bit == 2 || bit == 4 || bit == 8 || bit == 16 || bit == 32 || bit == 64
            || bit == 128 || bit == 256) by {
            assert(0 <= i < 9);
            assert(method_flags()[i] == bit);
        }
        assert("OPTIONS"@.len() == 7);
        assert("GET"@.len() == 3);
        assert("POST"@.len() == 4);
        assert("PUT"@.len() == 3);
        assert("DELETE"@.len() == 6);
        assert("HEAD"@.len() == 4);
        assert("TRACE"@.len() == 5);
        assert("CONNECT"@.len() == 7);
        assert("PATCH"@.len() == 5);
        assert("PUT"@[0] != "GET"@[0]);
        assert("HEAD"@[0] != "POST"@[0]);
        assert("CONNECT"@[0] != "OPTIONS"@[0]);
        assert("PATCH"@[0] != "TRACE"@[0]);
        assert(method_of_name("OPTIONS"@) == Method(1));
        assert(method_of_name("GET"@) == Method(2));
        assert(method_of_name("POST"@) == Method(4));
        assert(method_of_name("PUT"@) == Method(8));
        assert(method_of_name("DELETE"@) == Method(16));
        assert(method_of_name("HEAD"@) == Method(32));
        assert(method_of_name("TRACE"@) == Method(64));
        assert(method_of_name("CONNECT"@) == Method(128));
        assert(method_of_name("PATCH"@) == Method(256));
    }
}

/// A value that is none of the nine methods is named GET, and a name that is
/// none of the nine methods' names stands for GET.
pub proof fn lemma_method_name_fallbacks(bit: UDbFlgBit, name: Seq<char>)
    ensures
        !method_flags().contains(bit) ==> name_of_method(Method(bit)) == "GET"@,
        (forall|i: int| 0 <= i < method_flags().len() ==> name != #[trigger] name_of_method(Method(method_flags()[i])))
            ==> method_of_name(name) == Method(Method::METHOD_TYPE_GET),
{
    let f = method_flags();
    if !f.contains(bit) {
        assert forall|k: int| 0 <= k < f.len() implies f[k] != bit by {
            if f[k] == bit {
                assert(f.contains(bit));
            }
        }
        assert(f[0] != bit && f[1] != bit && f[2] != bit && f[3] != bit && f[4] != bit
            && f[5] != bit && f[6] != bit && f[7] != bit && f[8] != bit);
    }
    if forall|i: int| 0 <= i < f.len() ==> name != #[trigger] name_of_method(Method(f[i])) {
        assert(name != name_of_method(Method(f[0])));
        assert(name != name_of_method(Method(f[1])));
        assert(name != name_of_method(Method(f[2])));
        assert(name != name_of_method(Method(f[3])));
        assert(name != name_of_method(Method(f[4])));
        assert(name != name_of_method(Method(f[5])));
        assert(name != name_of_method(Method(f[6])));
        assert(name != name_of_method(Method(f[7])));
        assert(name != name_of_method(Method(f[8])));
    }
}

/// How one method bit meets or, and and the mask of the nine method bits.
proof fn lemma_method_bit(a: UDbFlg, b: UDbFlg, bit: UDbFlgBit)
    requires
        method_flags().contains(bit),
    ensures
        flag_has(a | b, bit) == (flag_has(a, bit) || flag_has(b, bit)),
        flag_has(a & b, bit) == (flag_has(a, bit) && flag_has(b, bit)),
        flag_has(a & 0x1FF, bit) == flag_has(a, bit),
{
    let i = choose|i: int| 0 <= i < method_flags().len() && method_flags()[i] == bit;
    assert(bit == 1 || bit == 2 || bit == 4 || bit == 8 || bit == 16 || bit == 32 || bit == 64
        || bit == 128 || bit == 256) by {
        assert(0 <= i < 9);
        assert(method_flags()[i] == bit);
    }
    assert(((a | b) & bit > 0) == ((a & bit > 0) || (b & bit > 0))
        && ((a & b) & bit > 0) == ((a & bit > 0) && (b & bit > 0))
        && ((a & 0x1FFi64) & bit > 0) == (a & bit > 0)) by (bit_vector)
        requires
            bit == 1 || bit == 2 || bit == 4 || bit == 8 || bit == 16 || bit == 32 || bit == 64
                || bit == 128 || bit == 256;
}

/// The methods of or-ed flags are those of either; the methods of and-ed
/// flags are those of both; and only the nine method bits of a flag count.
pub proof fn lemma_method_flags_algebra(a: UDbFlg, b: UDbFlg)
    ensures
        selected_flags(a | b, method_flags()).to_set()
            == selected_flags(a, method_flags()).to_set() + selected_flags(b, method_flags()).to_set(),
        selected_flags(a & b, method_flags()).to_set()
            == selected_flags(a, method_flags()).to_set().intersect(selected_flags(b, method_flags()).to_set()),
        selected_flags(a, method_flags()) == selected_flags(a & 0x1FF, method_flags()),
{
    let f = method_flags();
    assert forall|x: UDbFlgBit| selected_flags(a | b, f).to_set().contains(x)
        == (selected_flags(a, f).to_set() + selected_flags(b, f).to_set()).contains(x) by {
        lemma_selected_flags_contains(a | b, f, x);
        lemma_selected_flags_contains(a, f, x);
        lemma_selected_flags_contains(b, f, x);
        if f.contains(x) {
            lemma_method_bit(a, b, x);
        }
    }
    assert(selected_flags(a | b, f).to_set() =~= selected_flags(a, f).to_set() + selected_flags(b, f).to_set());
    assert forall|x: UDbFlgBit| selected_flags(a & b, f).to_set().contains(x)
        == selected_flags(a, f).to_set().intersect(selected_flags(b, f).to_set()).contains(x) by {
        lemma_selected_flags_contains(a & b, f, x);
        lemma_selected_flags_contains(a, f, x);
        lemma_selected_flags_contains(b, f, x);
        if f.contains(x) {
            lemma_method_bit(a, b, x);
        }
    }
    assert(selected_flags(a & b, f).to_set() =~= selected_flags(a, f).to_set().intersect(selected_flags(b, f).to_set()));
    assert forall|i: int| 0 <= i < f.len() implies flag_has(a, #[trigger] f[i]) == flag_has(a & 0x1FF, f[i]) by {
        assert(f.contains(f[i]));
        lemma_method_bit(a, b, f[i]);
    }
    lemma_selected_flags_agree(a, a & 0x1FF, f);
}

} // verus!
