//! The settings that the caller loads once at start.

use vstd::prelude::*;
use crate::text::texts;

verus! {

/// What a [`Configuration`] holds, as plain sequences.
pub struct ConfigurationView {
    pub repology_url: Seq<char>,
    pub allowlist: Seq<Seq<char>>,
    pub denylist: Seq<Seq<char>>,
}

/// The base address of the remote metadata source, and the allow- and
/// deny-list of repository names. The address is held in its serialized
/// form.
pub struct Configuration {
    repology_url: String,
    allowlist: Vec<String>,
    denylist: Vec<String>,
}

impl View for Configuration {
    type V = ConfigurationView;

    closed spec fn view(&self) -> ConfigurationView {
        ConfigurationView {
            repology_url: self.repology_url@,
            allowlist: texts(self.allowlist@),
            denylist: texts(self.denylist@),
        }
    }
}

impl Configuration {
    pub fn new(repology_url: String, allowlist: Vec<String>, denylist: Vec<String>) -> (config: Self)
        ensures
            config@.repology_url == repology_url@,
            config@.allowlist == texts(allowlist@),
            config@.denylist == texts(denylist@),
    {
        Configuration { repology_url, allowlist, denylist }
    }

    pub fn repology_url(&self) -> (url: &String)
        ensures
            url@ == self@.repology_url,
    {
        &self.repology_url
    }

    pub fn allowlist(&self) -> (list: &Vec<String>)
        ensures
            texts(list@) == self@.allowlist,
    {
        &self.allowlist
    }

    pub fn denylist(&self) -> (list: &Vec<String>)
        ensures
            texts(list@) == self@.denylist,
    {
        &self.denylist
    }
}

} // verus!
