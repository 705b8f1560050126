//! The ordered, append-only list of wire-level message options.
//!
//! Insertion order is wire order. Options are built either by splitting a
//! parsed locator's path into segments or by appending one literal
//! segment directly.

use crate::error::CoapError;
use crate::uri::CoapUri;
use crate::uri::lemma_slash_end_at;
use crate::uri::lemma_slash_end_bounds;
use crate::uri::slash_end;
use vstd::prelude::*;
use vstd::string::StrSliceExecFns;

verus! {

/// The option number of one URI path segment.
pub const COAP_OPTION_URI_PATH: u16 = 11;

/// One wire-level message option: its number and its value text.
pub struct CoapOption {
    pub number: u16,
    pub value: String,
}

/// The path's segments from the given position on: maximal runs of
/// non-separator characters, in path order; empty segments vanish.
pub open spec fn split_path_from(s: Seq<char>, from: int) -> Seq<Seq<char>>
    decreases s.len() - from,
    via split_path_from_decreases
{
    if from < 0 || from >= s.len() {
        Seq::<Seq<char>>::empty()
    } else if s[from] == '/' {
        split_path_from(s, from + 1)
    } else {
        let e = slash_end(s, from);
        if e >= s.len() {
            seq![s.subrange(from, s.len() as int)]
        } else {
            seq![s.subrange(from, e)] + split_path_from(s, e + 1)
        }
    }
}

#[via_fn]
proof fn split_path_from_decreases(s: Seq<char>, from: int) {
    if 0 <= from && from < s.len() && s[from] != '/' {
        lemma_slash_end_bounds(s, from);
    }
}

/// The wire options a path's segments become, in path order.
pub open spec fn path_options_from(s: Seq<char>, from: int) -> Seq<(u16, Seq<char>)> {
    split_path_from(s, from).map_values(|seg: Seq<char>| (COAP_OPTION_URI_PATH, seg))
}

proof fn lemma_path_options_step(s: Seq<char>, i: int, j: int)
    requires
        0 <= i < s.len(),
        s[i] != '/',
        j == slash_end(s, i),
    ensures
        path_options_from(s, i) =~= seq![(COAP_OPTION_URI_PATH, s.subrange(i, j))]
            + path_options_from(s, j + 1),
{
    lemma_slash_end_bounds(s, i);
    if j >= s.len() {
        assert(split_path_from(s, i) == seq![s.subrange(i, s.len() as int)]);
        assert(split_path_from(s, j + 1) =~= Seq::<Seq<char>>::empty());
    } else {
        assert(split_path_from(s, i) == seq![s.subrange(i, j)] + split_path_from(s, j + 1));
    }
}

/// An ordered, append-only option list: what a message will carry on the
/// wire, in insertion order.
pub struct CoapOptList {
    options: Vec<CoapOption>,
}

impl View for CoapOptList {
    type V = Seq<(u16, Seq<char>)>;

    closed spec fn view(&self) -> Seq<(u16, Seq<char>)> {
        self.options@.map_values(|o: CoapOption| (o.number, o.value@))
    }
}

impl CoapOptList {
    /// An empty option list.
    pub fn new() -> (r: Self)
        ensures
            r@ == Seq::<(u16, Seq<char>)>::empty(),
    {
        let r = CoapOptList { options: Vec::new() };
        proof {
            assert(r@ =~= Seq::<(u16, Seq<char>)>::empty());
        }
        r
    }

    /// How many options the list holds.
    pub fn len(&self) -> (r: usize)
        ensures
            r == self@.len(),
    {
        self.options.len()
    }

    /// The options, in wire order.
    pub fn options(&self) -> (r: &Vec<CoapOption>)
        ensures
            r@.map_values(|o: CoapOption| (o.number, o.value@)) == self@,
            r@.len() == self@.len(),
    {
        &self.options
    }

    /// Appends every option of another list, in its order, consuming it.
    pub fn append(&mut self, other: CoapOptList) -> (r: Result<(), CoapError>)
        ensures
            r is Ok,
            final(self)@ == old(self)@ + other@,
    {
        let ghost orig: Seq<(u16, Seq<char>)> = other@;
        let mut o = other;
        self.options.append(&mut o.options);
        proof {
            assert(self@ =~= old(self)@ + orig);
        }
        Ok(())
    }

    /// Appends one raw literal path segment as a URI path option.
    pub fn add_path_segment(&mut self, segment: &str) -> (r: Result<(), CoapError>)
        ensures
            r is Ok,
            final(self)@ == old(self)@.push((COAP_OPTION_URI_PATH, segment@)),
    {
        self.options.push(CoapOption { number: COAP_OPTION_URI_PATH, value: segment.to_owned() });
        proof {
            assert(self@ =~= old(self)@.push((COAP_OPTION_URI_PATH, segment@)));
        }
        Ok(())
    }

    /// Splits the locator's path into URI path options and appends them,
    /// in path order. A path that does not fit the 256-character splitting
    /// budget is refused whole, leaving the list as it was.
    #[verifier::loop_isolation(false)]
    pub fn add_uri_path_segments(&mut self, uri: &CoapUri) -> (r: Result<(), CoapError>)
        ensures
            uri.spec_path().len() > 256 ==> r == Err::<(), CoapError>(CoapError::UriTooLong)
                && final(self)@ == old(self)@,
            uri.spec_path().len() <= 256 ==> r is Ok && final(self)@ == old(self)@
                + path_options_from(uri.spec_path(), 0),
    {
        let p: &String = uri.path();
        let pl = p.as_str().unicode_len();
        if pl > 256 {
            return Err(CoapError::UriTooLong);
        }
        let ghost s: Seq<char> = p@;
        let mut i: usize = 0;
        while i < pl
            invariant
                0 <= i <= pl + 1,
                self@ + path_options_from(s, i as int) =~= old(self)@ + path_options_from(s, 0),
            decreases pl + 1 - i,
        {
            let c = p.as_str().get_char(i);
            if c == '/' {
                i += 1;
            } else {
                let mut j: usize = i + 1;
                while j < pl && p.as_str().get_char(j) != '/'
                    invariant
                        i < j <= pl,
                        forall|k: int| i < k < j ==> #[trigger] s[k] != '/',
                    decreases pl - j,
                {
                    j += 1;
                }
                proof {
                    lemma_slash_end_at(s, i as int, j as int);
                }
                let seg: &str = p.as_str().substring_char(i, j);
                let ghost prev: Seq<(u16, Seq<char>)> = self@;
                self.options.push(
                    CoapOption { number: COAP_OPTION_URI_PATH, value: seg.to_owned() },
                );
                proof {
                    lemma_path_options_step(s, i as int, j as int);
                    assert(self@ =~= prev.push((COAP_OPTION_URI_PATH, s.subrange(i as int, j as int))));
                    assert(self@ + path_options_from(s, j + 1) =~= prev + path_options_from(
                        s,
                        i as int,
                    ));
                }
                i = j + 1;
            }
        }
        proof {
            assert(path_options_from(s, i as int) =~= Seq::<(u16, Seq<char>)>::empty());
            assert(self@ + path_options_from(s, i as int) =~= self@);
        }
        Ok(())
    }
}

} // verus!
