//! Which parts of an image a front end was asked to show, and what follows
//! from the request.
use crate::report::strs_view;
use vstd::prelude::*;

verus! {

/// The parts of an image a front end was asked to show, one flag each.
#[derive(Clone, Copy, Debug)]
pub struct ContentSelection {
    /// Every implemented part.
    pub all: bool,
    pub dos: bool,
    pub nt: bool,
    pub sections: bool,
    pub data_directories: bool,
    pub exports: bool,
    pub imports: bool,
    pub resources: bool,
    pub exceptions: bool,
    pub security: bool,
    pub relocations: bool,
    pub debug: bool,
    pub tls: bool,
    pub load_config: bool,
}

/// `name` when `flag` is set, else nothing.
pub open spec fn named_if(flag: bool, name: Seq<char>) -> Seq<Seq<char>> {
    if flag {
        seq![name]
    } else {
        Seq::empty()
    }
}

/// Appends `name` when `flag` is set.
fn push_if(names: &mut Vec<&'static str>, flag: bool, name: &'static str)
    ensures
        strs_view(final(names)@) == strs_view(old(names)@) + named_if(flag, name@),
{
    let ghost start = strs_view(names@);
    if flag {
        names.push(name);
    }
    assert(strs_view(names@) =~= start + named_if(flag, name@));
}

impl ContentSelection {
    /// Whether any flag is set.
    pub open spec fn spec_any_selected(self) -> bool {
        self.all || self.dos || self.nt || self.sections || self.data_directories || self.exports
            || self.imports || self.resources || self.exceptions || self.security
            || self.relocations || self.debug || self.tls || self.load_config
    }

    /// Whether a part asked for by `flag` is shown: with `all`, when it is
    /// asked for, or when nothing at all is asked for.
    pub open spec fn spec_wants(self, flag: bool) -> bool {
        self.all || flag || !self.spec_any_selected()
    }

    /// The names of the parts asked for that have no implementation yet,
    /// in a fixed order.
    pub open spec fn spec_unimplemented_requested(self) -> Seq<Seq<char>> {
        named_if(self.data_directories, "data-directories"@) + named_if(
            self.resources,
            "resources"@,
        ) + named_if(self.exceptions, "exceptions"@) + named_if(self.security, "security"@)
            + named_if(self.relocations, "relocations"@) + named_if(self.debug, "debug"@)
            + named_if(self.tls, "tls"@) + named_if(self.load_config, "load-config"@)
    }

    /// Whether any flag is set.
    pub fn any_selected(&self) -> (r: bool)
        ensures
            r == self.spec_any_selected(),
    {
        self.all || self.dos || self.nt || self.sections || self.data_directories || self.exports
            || self.imports || self.resources || self.exceptions || self.security
            || self.relocations || self.debug || self.tls || self.load_config
    }

    /// Whether a part asked for by `flag` is shown.
    pub fn wants(&self, flag: bool) -> (r: bool)
        ensures
            r == self.spec_wants(flag),
    {
        self.all || flag || !self.any_selected()
    }

    /// The names of the parts asked for that have no implementation yet.
    pub fn unimplemented_requested(&self) -> (r: Vec<&'static str>)
        ensures
            strs_view(r@) == self.spec_unimplemented_requested(),
    {
        let mut names: Vec<&'static str> = Vec::new();
        push_if(&mut names, self.data_directories, "data-directories");
        push_if(&mut names, self.resources, "resources");
        push_if(&mut names, self.exceptions, "exceptions");
        push_if(&mut names, self.security, "security");
        push_if(&mut names, self.relocations, "relocations");
        push_if(&mut names, self.debug, "debug");
        push_if(&mut names, self.tls, "tls");
        push_if(&mut names, self.load_config, "load-config");
        assert(strs_view(names@) =~= self.spec_unimplemented_requested());
        names
    }
}

} // verus!
