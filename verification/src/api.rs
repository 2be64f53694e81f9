//! The data model of the HTTP client: methods, header sets and the client's
//! own configuration. Sending requests is left to the surrounding
//! application; this module pins down how the configuration behaves.

use vstd::prelude::*;

use crate::keymap::KeyMap;

verus! {

/// The HTTP methods the client supports.
#[derive(Debug, Clone, Copy, PartialEq, Eq, Structural)]
pub enum HttpMethod {
    Get,
    Post,
    Put,
    Patch,
    Delete,
}

/// A set of HTTP headers: a map from header name to header value.
#[derive(Debug)]
pub struct ApiHeaders {
    headers: KeyMap<String>,
}

impl View for ApiHeaders {
    type V = Map<Seq<char>, String>;

    closed spec fn view(&self) -> Map<Seq<char>, String> {
        self.headers@
    }
}

impl ApiHeaders {
    /// The backing table is well-formed.
    pub closed spec fn wf(&self) -> bool {
        self.headers.wf()
    }

    /// Creates an empty set of headers.
    pub fn new() -> (r: Self)
        ensures
            r.wf(),
            r@ == Map::<Seq<char>, String>::empty(),
    {
        ApiHeaders { headers: KeyMap::new() }
    }

    /// Inserts a header, replacing any earlier value under the same name.
    pub fn insert(&mut self, key: String, value: String)
        requires
            old(self).wf(),
        ensures
            final(self).wf(),
            final(self)@ == old(self)@.insert(key@, value),
    {
        self.headers.insert(key, value);
    }

    /// Removes a header by name; removing an absent name changes nothing.
    pub fn delete(&mut self, key: &str)
        requires
            old(self).wf(),
        ensures
            final(self).wf(),
            final(self)@ == old(self)@.remove(key@),
    {
        let owned: String = key.to_owned();
        self.headers.remove(&owned);
    }
}

/// The header set after binding every entry of `entries` in order: a later
/// entry for the same name wins.
pub open spec fn with_headers(
    pre: Map<Seq<char>, String>,
    entries: Seq<(String, String)>,
) -> Map<Seq<char>, String>
    decreases entries.len(),
{
    if entries.len() == 0 {
        pre
    } else {
        with_headers(pre, entries.drop_last()).insert(entries.last().0@, entries.last().1)
    }
}

/// An HTTP client configuration: the base URL every request is made against
/// and the headers sent with every request.
#[derive(Debug)]
pub struct ApiClientHttp {
    root_url: String,
    headers: ApiHeaders,
}

impl ApiClientHttp {
    /// The base URL, as a sequence of characters.
    pub closed spec fn spec_root_url(&self) -> Seq<char> {
        self.root_url@
    }

    /// The headers sent with every request.
    pub closed spec fn spec_headers(&self) -> Map<Seq<char>, String> {
        self.headers@
    }

    /// The header table is well-formed.
    pub closed spec fn wf(&self) -> bool {
        self.headers.wf()
    }

    /// Creates a client for the given base URL, with no headers.
    pub fn new(root_url: String) -> (r: Self)
        ensures
            r.wf(),
            r.spec_root_url() == root_url@,
            r.spec_headers() == Map::<Seq<char>, String>::empty(),
    {
        ApiClientHttp { root_url, headers: ApiHeaders::new() }
    }

    /// The base URL.
    pub fn root_url(&self) -> (r: &str)
        ensures
            r@ == self.spec_root_url(),
    {
        self.root_url.as_str()
    }

    /// A view of the configured headers.
    pub fn headers(&self) -> (r: &ApiHeaders)
        ensures
            r@ == self.spec_headers(),
            self.wf() ==> r.wf(),
    {
        &self.headers
    }

    /// Sets one header that will be sent with every request.
    pub fn set_header(&mut self, key: String, value: String)
        requires
            old(self).wf(),
        ensures
            final(self).wf(),
            final(self).spec_root_url() == old(self).spec_root_url(),
            final(self).spec_headers() == old(self).spec_headers().insert(key@, value),
    {
        self.headers.insert(key, value);
    }

    /// Sets several headers at once, in order: a later entry for the same
    /// name wins.
    pub fn set_headers(&mut self, headers: Vec<(String, String)>)
        requires
            old(self).wf(),
        ensures
            final(self).wf(),
            final(self).spec_root_url() == old(self).spec_root_url(),
            final(self).spec_headers() == with_headers(old(self).spec_headers(), headers@),
    {
        let n = headers.len();
        let mut i: usize = 0;
        while i < n
            invariant
                self.wf(),
                n == headers@.len(),
                0 <= i <= n,
                self.spec_root_url() == old(self).spec_root_url(),
                self.spec_headers() == with_headers(old(self).spec_headers(), headers@.take(i as int)),
            decreases n - i,
        {
            let key = headers[i].0.clone();
            let value = headers[i].1.clone();
            self.headers.insert(key, value);
            proof {
                assert(headers@.take(i as int + 1).drop_last() == headers@.take(i as int));
                assert(headers@.take(i as int + 1).last() == headers@[i as int]);
                assert(self.spec_headers() == with_headers(
                    old(self).spec_headers(),
                    headers@.take(i as int + 1),
                ));
            }
            i += 1;
        }
        proof {
            assert(headers@.take(n as int) == headers@);
        }
    }
}

} // verus!
