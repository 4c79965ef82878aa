//! Choosing transports and keeping named transport instances.
use vstd::prelude::*;

use super::{TransportBuilder, TransportConfig, TransportType, validated, is_default_local, is_default_general};
use super::builder::local_assembled;
use crate::error::YuhaError;
use crate::keyed::KeyedList;
use crate::platform::target_is_windows;

verus! {

/// Chooses and checks transport configurations.
pub struct TransportFactory;

impl TransportFactory {
    fn is_wsl_available() -> (r: bool)
        ensures
            !r,
    {
        false
    }

    /// The best transport for this platform: WSL where it is installed on Windows, the default
    /// local transport otherwise. WSL is never detected, so the default local configuration is
    /// built, which validation accepts.
    pub fn auto_detect() -> (r: Result<TransportConfig, YuhaError>)
        ensures
            exists|local, general|
                is_default_local(local) && is_default_general(general) && r == Ok::<
                    TransportConfig,
                    YuhaError,
                >(local_assembled(local, general)),
    {
        if target_is_windows() && Self::is_wsl_available() {
            TransportBuilder::wsl().build()
        } else {
            let b = TransportBuilder::local();
            let ghost v = b@;
            let r = b.build();
            assert(is_default_local(v.0) && is_default_general(v.1) && r == Ok::<
                TransportConfig,
                YuhaError,
            >(local_assembled(v.0, v.1)));
            r
        }
    }

    /// The transport kinds usable here, given whether the platform is Windows.
    pub fn available_transports_on(windows: bool) -> (r: Vec<TransportType>)
        ensures
            windows ==> r@ == seq![TransportType::Local, TransportType::Ssh, TransportType::Tcp, TransportType::Wsl],
            !windows ==> r@ == seq![TransportType::Local, TransportType::Ssh, TransportType::Tcp],
    {
        let mut transports = Vec::new();
        transports.push(TransportType::Local);
        transports.push(TransportType::Ssh);
        transports.push(TransportType::Tcp);
        if windows {
            transports.push(TransportType::Wsl);
        }
        proof {
            if windows {
                assert(transports@ =~= seq![TransportType::Local, TransportType::Ssh, TransportType::Tcp, TransportType::Wsl]);
            } else {
                assert(transports@ =~= seq![TransportType::Local, TransportType::Ssh, TransportType::Tcp]);
            }
        }
        transports
    }

    /// The transport kinds usable on this platform: local, SSH and TCP, and WSL on Windows only.
    pub fn available_transports() -> (r: Vec<TransportType>)
        ensures
            r@ == seq![TransportType::Local, TransportType::Ssh, TransportType::Tcp, TransportType::Wsl]
                || r@ == seq![TransportType::Local, TransportType::Ssh, TransportType::Tcp],
    {
        Self::available_transports_on(target_is_windows())
    }

    /// Whether a transport kind is usable, given whether the platform is Windows.
    pub fn is_transport_available_on(transport_type: TransportType, windows: bool) -> (r: bool)
        ensures
            r == (transport_type != TransportType::Wsl || windows),
    {
        match transport_type {
            TransportType::Ssh | TransportType::Local | TransportType::Tcp => true,
            TransportType::Wsl => windows,
        }
    }

    /// Whether a transport kind is usable on this platform; only WSL depends on it.
    pub fn is_transport_available(transport_type: TransportType) -> (r: bool)
        ensures
            transport_type != TransportType::Wsl ==> r,
    {
        Self::is_transport_available_on(transport_type, target_is_windows())
    }

    /// Validates a configuration without making a transport.
    pub fn validate_config(config: &TransportConfig) -> (r: Result<(), YuhaError>)
        ensures
            exists|windows: bool| validated(*config, windows, r),
    {
        config.validate()
    }
}

/// Transport instances kept by name.
pub struct TransportRegistry<T> {
    transports: KeyedList<String, T>,
}

impl<T> View for TransportRegistry<T> {
    type V = Map<Seq<char>, T>;

    closed spec fn view(&self) -> Map<Seq<char>, T> {
        self.transports@
    }
}

impl<T> TransportRegistry<T> {
    /// An empty registry.
    pub fn new() -> (r: Self)
        ensures
            r@ == Map::<Seq<char>, T>::empty(),
    {
        TransportRegistry { transports: KeyedList::new() }
    }

    /// Keeps a transport under a name, replacing any transport of that name.
    pub fn register(&mut self, name: &str, transport: T)
        ensures
            final(self)@ == old(self)@.insert(name@, transport),
    {
        self.transports.insert(String::from_str(name), transport);
    }

    /// The transport kept under a name.
    pub fn get(&self, name: &str) -> (r: Option<&T>)
        ensures
            match r {
                Some(t) => self@.contains_key(name@) && *t == self@[name@],
                None => !self@.contains_key(name@),
            },
    {
        let key = String::from_str(name);
        self.transports.get(&key)
    }

    /// The names of the kept transports, each once.
    pub fn list_names(&self) -> (r: Vec<String>)
        ensures
            r@.len() == self@.len(),
            forall|i: int| 0 <= i < r@.len() ==> self@.contains_key(#[trigger] r@[i]@),
            forall|k: Seq<char>| self@.contains_key(k) ==> exists|i: int| 0 <= i < r@.len() && #[trigger] r@[i]@ == k,
            forall|i: int, j: int| 0 <= i < j < r@.len() ==> r@[i]@ != r@[j]@,
    {
        let n = self.transports.len();
        let r = self.transports.keys();
        proof {
            assert forall|k: Seq<char>| self@.contains_key(k) implies exists|i: int| 0 <= i < r@.len() && #[trigger] r@[i]@ == k by {
                assert(self.transports.key_seq().contains(k));
                let i = choose|i: int| 0 <= i < self.transports.key_seq().len() && self.transports.key_seq()[i] == k;
                assert(r@[i]@ == k);
            }
            assert forall|i: int, j: int| 0 <= i < j < r@.len() implies r@[i]@ != r@[j]@ by {
                assert(self.transports.key_seq()[i] != self.transports.key_seq()[j]);
            }
        }
        r
    }

    /// Takes the transport kept under a name out of the registry.
    pub fn unregister(&mut self, name: &str) -> (r: Option<T>)
        ensures
            final(self)@ == old(self)@.remove(name@),
            match r {
                Some(t) => old(self)@.contains_key(name@) && t == old(self)@[name@],
                None => !old(self)@.contains_key(name@),
            },
    {
        let key = String::from_str(name);
        self.transports.remove(&key)
    }

    /// Removes every transport.
    pub fn clear(&mut self)
        ensures
            final(self)@ == Map::<Seq<char>, T>::empty(),
    {
        self.transports.clear();
    }
}

impl<T> Default for TransportRegistry<T> {
    fn default() -> (r: Self)
        ensures
            r@ == Map::<Seq<char>, T>::empty(),
    {
        Self::new()
    }
}

} // verus!
