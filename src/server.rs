//! The gateway server's state: where it listens and the registry of handlers
//! keyed by function selector.

use vstd::prelude::*;
use std::collections::HashMap;
use crate::abi::{
    abi_lookup, find_function, function_name, function_name_of, input_type_names, input_types_of,
};
use crate::errors::CCIPReadMiddlewareError;
use crate::selector::{selector_of, selector_spec, views_of};

verus! {

broadcast use vstd::std_specs::hash::group_hash_axioms;

/// An IP address to listen on.
#[derive(Debug, Clone, Copy)]
pub enum IpAddress {
    V4([u8; 4]),
    V6([u8; 16]),
}

/// The registry key of a selector: its four bytes read big-endian.
pub open spec fn selector_key(selector: Seq<u8>) -> u32 {
    (selector[0] as int * 16777216 + selector[1] as int * 65536 + selector[2] as int * 256
        + selector[3] as int) as u32
}

/// The registry key of a selector.
pub fn key_of(selector: &[u8; 4]) -> (r: u32)
    ensures
        r == selector_key(selector@),
{
    let a = selector[0] as u32;
    let b = selector[1] as u32;
    let c = selector[2] as u32;
    let d = selector[3] as u32;
    assert(a * 16777216 + b * 65536 + c * 256 + d <= 0xffff_ffff) by (nonlinear_arith)
        requires
            a <= 255,
            b <= 255,
            c <= 255,
            d <= 255,
    ;
    a * 16777216 + b * 65536 + c * 256 + d
}

/// One registered function: its selector, its name and input types, the
/// ABI description used to decode its arguments, and its handler.
#[derive(Clone)]
pub struct HandlerEntry<H> {
    pub selector: [u8; 4],
    pub name: String,
    pub input_types: Vec<String>,
    pub function: ethers_core::abi::Function,
    pub handler: H,
}

impl<H> HandlerEntry<H> {
    /// The stored selector is the one of the stored name and input types.
    pub open spec fn wf(&self) -> bool {
        self.selector@ == selector_spec(self.name@, views_of(self.input_types@))
    }
}

/// A gateway server: the address it listens on and its handlers.
#[derive(Clone)]
pub struct Server<H> {
    ip_address: IpAddress,
    port: u16,
    handlers: HashMap<u32, HandlerEntry<H>>,
}

impl<H> Server<H> {
    /// The registered entries, by the key of their selector.
    pub closed spec fn entries(&self) -> Map<u32, HandlerEntry<H>> {
        self.handlers@
    }

    pub closed spec fn spec_ip_address(&self) -> IpAddress {
        self.ip_address
    }

    pub closed spec fn spec_port(&self) -> u16 {
        self.port
    }

    /// Each entry's selector matches its signature and its key.
    pub open spec fn wf(&self) -> bool {
        forall|k: u32|
            #[trigger] self.entries().contains_key(k) ==> self.entries()[k].wf()
                && selector_key(self.entries()[k].selector@) == k
    }

    /// Some entry has this selector.
    pub open spec fn handles(&self, selector: Seq<u8>) -> bool {
        exists|k: u32|
            #[trigger] self.entries().contains_key(k) && self.entries()[k].selector@ == selector
    }

    /// `self` is `before` with the function of this name and these input
    /// types, described by `function`, registered to `handler`: the key of
    /// its selector now holds the new entry, and every other key what it
    /// held before.
    pub open spec fn registered(
        &self,
        before: Self,
        name: Seq<char>,
        types: Seq<Seq<char>>,
        function: ethers_core::abi::Function,
        handler: H,
    ) -> bool {
        let sel = selector_spec(name, types);
        let key = selector_key(sel);
        &&& self.wf()
        &&& self.spec_ip_address() == before.spec_ip_address()
        &&& self.spec_port() == before.spec_port()
        &&& self.entries().dom() == before.entries().dom().insert(key)
        &&& forall|k: u32| #[trigger]
            before.entries().contains_key(k) && k != key ==> self.entries()[k]
                == before.entries()[k]
        &&& self.entries()[key].selector@ == sel
        &&& self.entries()[key].name@ == name
        &&& views_of(self.entries()[key].input_types@) == types
        &&& self.entries()[key].function == function
        &&& self.entries()[key].handler == handler
    }

    /// A server for this address and port, with no handlers.
    pub fn new(ip_address: IpAddress, port: u16) -> (r: Self)
        ensures
            r.wf(),
            r.entries() == Map::<u32, HandlerEntry<H>>::empty(),
            r.spec_ip_address() == ip_address,
            r.spec_port() == port,
    {
        Server { ip_address, port, handlers: HashMap::new() }
    }

    pub fn ip_address(&self) -> (r: IpAddress)
        ensures
            r == self.spec_ip_address(),
    {
        self.ip_address
    }

    pub fn port(&self) -> (r: u16)
        ensures
            r == self.spec_port(),
    {
        self.port
    }

    /// The number of registered selectors.
    pub fn len(&self) -> (r: usize)
        ensures
            r == self.entries().len(),
    {
        self.handlers.len()
    }

    /// The entry under a key, if any.
    pub fn entry(&self, key: u32) -> (r: Option<&HandlerEntry<H>>)
        ensures
            r is None <==> !self.entries().contains_key(key),
            r matches Some(e) ==> *e == self.entries()[key],
    {
        self.handlers.get(&key)
    }

    /// The key of the entry with this selector, if any.
    pub fn lookup(&self, selector: &[u8; 4]) -> (r: Option<u32>)
        requires
            self.wf(),
        ensures
            r is None <==> !self.handles(selector@),
            r matches Some(k) ==> k == selector_key(selector@) && self.entries().contains_key(k)
                && self.entries()[k].selector@ == selector@,
    {
        let key = key_of(selector);
        match self.handlers.get(&key) {
            Some(e) => {
                let s = &e.selector;
                if s[0] == selector[0] && s[1] == selector[1] && s[2] == selector[2] && s[3]
                    == selector[3] {
                    assert(s@ =~= selector@);
                    assert(self.entries().contains_key(key) && self.entries()[key].selector@
                        == selector@);
                    assert(self.handles(selector@));
                    Some(key)
                } else {
                    assert(s@[0] != selector@[0] || s@[1] != selector@[1] || s@[2]
                        != selector@[2] || s@[3] != selector@[3]);
                    proof {
                        if self.handles(selector@) {
                            let k = choose|k: u32|
                                #[trigger] self.entries().contains_key(k)
                                    && self.entries()[k].selector@ == selector@;
                            assert(k == key);
                        }
                    }
                    None
                }
            },
            None => {
                proof {
                    if self.handles(selector@) {
                        let k = choose|k: u32|
                            #[trigger] self.entries().contains_key(k) && self.entries()[k].selector@
                                == selector@;
                        assert(k == key);
                    }
                }
                None
            },
        }
    }

    /// Registers the function with this name and these input types under its
    /// selector, replacing an earlier entry with the same selector.
    pub fn insert(
        &mut self,
        name: String,
        input_types: Vec<String>,
        function: ethers_core::abi::Function,
        handler: H,
    )
        requires
            old(self).wf(),
        ensures
            final(self).registered(*old(self), name@, views_of(input_types@), function, handler),
    {
        let selector = selector_of(name.as_str(), &input_types);
        let key = key_of(&selector);
        let entry = HandlerEntry { selector, name, input_types, function, handler };
        self.handlers.insert(key, entry);
        assert(self.entries().dom() =~= old(self).entries().dom().insert(key));
    }

    /// Looks `name` up in the interface description and registers that
    /// function to `callback` under its selector. Fails with
    /// `UnknownFunction`, leaving the server as it was, exactly when the
    /// description has no function of that name.
    pub fn add(&mut self, abi: &ethers_core::abi::Abi, name: &str, callback: H) -> (r: Result<
        (),
        CCIPReadMiddlewareError,
    >)
        requires
            old(self).wf(),
        ensures
            final(self).wf(),
            r is Ok == abi_lookup(*abi, name@) is Some,
            r is Err ==> r == Err::<(), _>(CCIPReadMiddlewareError::UnknownFunction) && *final(self)
                == *old(self),
            abi_lookup(*abi, name@) matches Some(f) ==> final(self).registered(
                *old(self),
                function_name_of(f),
                input_types_of(f),
                f,
                callback,
            ),
    {
        match find_function(abi, name) {
            Ok(function) => {
                let fname = function_name(&function);
                let types = input_type_names(&function);
                self.insert(fname, types, function, callback);
                Ok(())
            },
            Err(_) => Err(CCIPReadMiddlewareError::UnknownFunction),
        }
    }
}

/// A signature's selector is stable: in a well-formed server, two entries
/// registered with the same name and input types have the same selector,
/// and so are one and the same entry.
pub proof fn lemma_selector_stable<H>(server: Server<H>, i: u32, j: u32)
    requires
        server.wf(),
        server.entries().contains_key(i),
        server.entries().contains_key(j),
        server.entries()[i].name@ == server.entries()[j].name@,
        views_of(server.entries()[i].input_types@) == views_of(server.entries()[j].input_types@),
    ensures
        server.entries()[i].selector@ == server.entries()[j].selector@,
        i == j,
{
}

} // verus!
