//! A request as a plain value: verb, address and header fields.

use crate::text::str_eq;
use vstd::prelude::*;
use vstd::string::*;

verus! {

/// The verb of a request.
#[derive(Debug, Clone, Copy, PartialEq, Eq, Structural)]
pub enum Method {
    Get,
    Post,
    Put,
    Delete,
}

/// A request to the server, ready to be sent: the verb, the address and the
/// header fields. No two fields have the same name.
#[derive(Debug)]
pub struct ApiRequest {
    method: Method,
    url: String,
    headers: Vec<(String, String)>,
}

impl ApiRequest {
    #[verifier::type_invariant]
    spec fn names_differ(&self) -> bool {
        forall|i: int, j: int|
            0 <= i < j < self.headers@.len() ==> self.headers@[i].0@ != self.headers@[j].0@
    }

    /// The verb.
    pub closed spec fn spec_method(&self) -> Method {
        self.method
    }

    /// The address.
    pub closed spec fn spec_url(&self) -> Seq<char> {
        self.url@
    }

    /// What the header fields map each name to.
    pub closed spec fn spec_headers(&self) -> Map<Seq<char>, Seq<char>> {
        Map::new(
            |name: Seq<char>|
                exists|i: int| 0 <= i < self.headers@.len() && self.headers@[i].0@ == name,
            |name: Seq<char>|
                self.headers@[choose|i: int|
                    0 <= i < self.headers@.len() && self.headers@[i].0@ == name].1@,
        )
    }

    /// A request without header fields.
    pub fn new(method: Method, url: &str) -> (request: ApiRequest)
        ensures
            request.spec_method() == method,
            request.spec_url() == url@,
            request.spec_headers() == Map::<Seq<char>, Seq<char>>::empty(),
    {
        let request = ApiRequest { method, url: url.to_owned(), headers: Vec::new() };
        proof {
            assert(request.spec_headers() =~= Map::<Seq<char>, Seq<char>>::empty());
        }
        request
    }

    /// A `GET` request to `url`.
    pub fn get(url: &str) -> (request: ApiRequest)
        ensures
            request.spec_method() == Method::Get,
            request.spec_url() == url@,
            request.spec_headers() == Map::<Seq<char>, Seq<char>>::empty(),
    {
        ApiRequest::new(Method::Get, url)
    }

    /// The verb.
    pub fn method(&self) -> (method: Method)
        ensures
            method == self.spec_method(),
    {
        self.method
    }

    /// The address.
    pub fn url(&self) -> (url: &str)
        ensures
            url@ == self.spec_url(),
    {
        self.url.as_str()
    }

    /// The header fields, each as name and value, in the order in which their
    /// names were first set.
    pub fn header_fields(&self) -> (fields: &Vec<(String, String)>)
        ensures
            forall|i: int|
                0 <= i < fields@.len() ==> self.spec_headers().contains_key(
                    #[trigger] fields@[i].0@,
                ) && self.spec_headers()[fields@[i].0@] == fields@[i].1@,
            forall|name: Seq<char>| #[trigger]
                self.spec_headers().contains_key(name) ==> exists|i: int|
                    0 <= i < fields@.len() && fields@[i].0@ == name,
            forall|i: int, j: int|
                0 <= i < j < fields@.len() ==> fields@[i].0@ != fields@[j].0@,
    {
        proof {
            use_type_invariant(self);
            assert forall|i: int| 0 <= i < self.headers@.len() implies self.spec_headers()[
                #[trigger] self.headers@[i].0@] == self.headers@[i].1@ by {
                let name = self.headers@[i].0@;
                let k = choose|k: int| 0 <= k < self.headers@.len() && self.headers@[k].0@ == name;
                assert(k == i);
            }
        }
        &self.headers
    }

    fn position(&self, name: &str) -> (found: Option<usize>)
        ensures
            match found {
                Some(i) => i < self.headers@.len() && self.headers@[i as int].0@ == name@,
                None => forall|i: int|
                    0 <= i < self.headers@.len() ==> self.headers@[i].0@ != name@,
            },
    {
        let mut i: usize = 0;
        while i < self.headers.len()
            invariant
                0 <= i <= self.headers@.len(),
                forall|k: int| 0 <= k < i ==> self.headers@[k].0@ != name@,
            decreases self.headers@.len() - i,
        {
            if str_eq(self.headers[i].0.as_str(), name) {
                return Some(i);
            }
            i += 1;
        }
        None
    }

    /// The value of the header field `name`, if the request has one.
    pub fn header(&self, name: &str) -> (value: Option<&str>)
        ensures
            match value {
                Some(v) => self.spec_headers().contains_key(name@) && self.spec_headers()[name@]
                    == v@,
                None => !self.spec_headers().contains_key(name@),
            },
    {
        proof {
            use_type_invariant(self);
        }
        match self.position(name) {
            Some(i) => {
                let value = self.headers[i].1.as_str();
                proof {
                    let k = choose|k: int|
                        0 <= k < self.headers@.len() && self.headers@[k].0@ == name@;
                    assert(k == i);
                }
                Some(value)
            },
            None => None,
        }
    }

    /// The request with the header field `name` set to `value`; a field of that
    /// name that the request had is replaced.
    pub fn set(self, name: &str, value: &str) -> (request: ApiRequest)
        ensures
            request.spec_method() == self.spec_method(),
            request.spec_url() == self.spec_url(),
            request.spec_headers() == self.spec_headers().insert(name@, value@),
    {
        proof {
            use_type_invariant(&self);
        }
        let found = self.position(name);
        let ghost before = self;
        let ApiRequest { method, url, headers } = self;
        let mut headers = headers;
        match found {
            Some(i) => {
                let mut kept: Vec<(String, String)> = Vec::new();
                let mut k: usize = 0;
                while k < headers.len()
                    invariant
                        0 <= k <= headers@.len(),
                        headers == before.headers,
                        i < headers@.len(),
                        kept@.len() == k,
                        forall|j: int|
                            0 <= j < k ==> kept@[j].0@ == headers@[j].0@ && kept@[j].1@ == (if j
                                == i {
                                value@
                            } else {
                                headers@[j].1@
                            }),
                    decreases headers@.len() - k,
                {
                    let field = if k == i {
                        (headers[k].0.clone(), value.to_owned())
                    } else {
                        (headers[k].0.clone(), headers[k].1.clone())
                    };
                    kept.push(field);
                    k += 1;
                }
                let request = ApiRequest { method, url, headers: kept };
                proof {
                    assert forall|n: Seq<char>|
                        #[trigger] request.spec_headers().contains_key(n)
                            == before.spec_headers().insert(name@, value@).contains_key(n) by {
                        if request.spec_headers().contains_key(n) {
                            let j = choose|j: int|
                                0 <= j < kept@.len() && kept@[j].0@ == n;
                            assert(before.headers@[j].0@ == n);
                        }
                        if before.spec_headers().insert(name@, value@).contains_key(n) {
                            if n == name@ {
                                assert(kept@[i as int].0@ == n);
                            } else {
                                let j = choose|j: int|
                                    0 <= j < before.headers@.len() && before.headers@[j].0@ == n;
                                assert(kept@[j].0@ == n);
                            }
                        }
                    }
                    assert forall|n: Seq<char>| #[trigger]
                        request.spec_headers().contains_key(n) implies request.spec_headers()[n]
                        == before.spec_headers().insert(name@, value@)[n] by {
                        let j = choose|j: int| 0 <= j < kept@.len() && kept@[j].0@ == n;
                        assert(before.headers@[j].0@ == n);
                        if n != name@ {
                            let j2 = choose|j2: int|
                                0 <= j2 < before.headers@.len() && before.headers@[j2].0@ == n;
                            assert(j2 == j);
                        } else {
                            assert(j == i);
                        }
                    }
                    assert(request.spec_headers() =~= before.spec_headers().insert(name@, value@));
                }
                request
            },
            None => {
                headers.push((name.to_owned(), value.to_owned()));
                let request = ApiRequest { method, url, headers };
                proof {
                    let last = before.headers@.len() as int;
                    assert forall|n: Seq<char>|
                        #[trigger] request.spec_headers().contains_key(n)
                            == before.spec_headers().insert(name@, value@).contains_key(n) by {
                        if request.spec_headers().contains_key(n) {
                            let j = choose|j: int|
                                0 <= j < headers@.len() && headers@[j].0@ == n;
                            if j < last {
                                assert(before.headers@[j].0@ == n);
                            }
                        }
                        if before.spec_headers().insert(name@, value@).contains_key(n) {
                            if n == name@ {
                                assert(headers@[last].0@ == n);
                            } else {
                                let j = choose|j: int|
                                    0 <= j < before.headers@.len() && before.headers@[j].0@ == n;
                                assert(headers@[j].0@ == n);
                            }
                        }
                    }
                    assert forall|n: Seq<char>| #[trigger]
                        request.spec_headers().contains_key(n) implies request.spec_headers()[n]
                        == before.spec_headers().insert(name@, value@)[n] by {
                        let j = choose|j: int| 0 <= j < headers@.len() && headers@[j].0@ == n;
                        if n != name@ {
                            assert(j < last);
                            assert(before.headers@[j].0@ == n);
                            let j2 = choose|j2: int|
                                0 <= j2 < before.headers@.len() && before.headers@[j2].0@ == n;
                            assert(j2 == j);
                        } else {
                            assert(j == last);
                        }
                    }
                    assert(request.spec_headers() =~= before.spec_headers().insert(name@, value@));
                }
                request
            },
        }
    }
}

} // verus!
