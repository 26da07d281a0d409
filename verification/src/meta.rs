//! Zone identity: name and the derived on-disk locations.

use vstd::prelude::*;

use crate::error::CzError;
use crate::text::{join_path, spec_after_last, spec_strip_yaml, after_last_char, strip_yaml_suffix};
use crate::zone::{default_workdir, spec_default_workdir};

verus! {

/// Identity of a control zone.  Once `create` has succeeded, this block is
/// immutable: updates that touch it are refused.
#[derive(Debug)]
pub struct Meta {
    pub name: String,
    pub workdir: String,
    pub share_folder: String,
    pub full_config: String,
}

/// Field-wise equality of two `Meta` blocks.
pub open spec fn meta_eq(a: Meta, b: Meta) -> bool {
    &&& a.name@ == b.name@
    &&& a.workdir@ == b.workdir@
    &&& a.share_folder@ == b.share_folder@
    &&& a.full_config@ == b.full_config@
}

impl PartialEq for Meta {
    fn eq(&self, o: &Meta) -> (r: bool) {
        self.name == o.name && self.workdir == o.workdir && self.share_folder == o.share_folder
            && self.full_config == o.full_config
    }
}

impl vstd::std_specs::cmp::PartialEqSpecImpl for Meta {
    open spec fn obeys_eq_spec() -> bool {
        true
    }

    open spec fn eq_spec(&self, o: &Meta) -> bool {
        meta_eq(*self, *o)
    }
}

impl Default for Meta {
    fn default() -> (r: Self)
        ensures
            r.name@ == Seq::<char>::empty(),
            r.workdir@ == Seq::<char>::empty(),
            r.share_folder@ == Seq::<char>::empty(),
            r.full_config@ == Seq::<char>::empty(),
    {
        Meta {
            name: String::new(),
            workdir: String::new(),
            share_folder: String::new(),
            full_config: String::new(),
        }
    }
}

/// A `Meta` is valid, that is usable for load-by-name, only once every
/// derived location is filled in.
pub open spec fn spec_meta_valid(m: Meta) -> bool {
    &&& m.workdir@.len() > 0
    &&& m.share_folder@.len() > 0
    &&& m.full_config@.len() > 0
}

impl Meta {
    /// Whether the workdir, share-folder and full-config fields are all
    /// filled in, which distinguishes a created zone from a declared one.
    pub fn is_valid(&self) -> (r: bool)
        ensures
            r == spec_meta_valid(*self),
    {
        !self.workdir.as_str().is_empty() && !self.share_folder.as_str().is_empty()
            && !self.full_config.as_str().is_empty()
    }
}

/// The zone name a declaration file implies: its base name, a final `.yaml`
/// extension stripped.
pub open spec fn spec_zone_name(file: Seq<char>) -> Seq<char> {
    spec_strip_yaml(spec_after_last(file, '/'))
}

/// Fills the omitted identity fields of a declared `Meta` from conventions.
pub struct MetaBuilder {
    pub meta: Meta,
    pub workdir: String,
}

impl MetaBuilder {
    /// Starts from a declared `Meta` and the declaration file's path: an
    /// absent name is derived from the file's base name, an absent workdir
    /// from the conventional root.
    pub fn new(meta: Meta, file: &str) -> (r: Result<MetaBuilder, CzError>)
        requires
            meta.name@.len() > 0 || spec_zone_name(file@).len() > 0,
        ensures
            r matches Ok(b) && {
                &&& b.meta.name@ == if meta.name@.len() > 0 {
                    meta.name@
                } else {
                    spec_zone_name(file@)
                }
                &&& b.meta.workdir@ == if meta.workdir@.len() > 0 {
                    meta.workdir@
                } else {
                    spec_default_workdir(b.meta.name@)
                }
                &&& b.workdir@ == b.meta.workdir@
                &&& b.meta.share_folder@ == meta.share_folder@
                &&& b.meta.full_config@ == meta.full_config@
            },
    {
        let mut meta = meta;
        if meta.name.as_str().is_empty() {
            meta.name = strip_yaml_suffix(after_last_char(file, '/').as_str());
        }
        if meta.workdir.as_str().is_empty() {
            meta.workdir = default_workdir(meta.name.as_str());
        }
        let workdir = meta.workdir.clone();
        Ok(MetaBuilder { meta, workdir })
    }

    /// Derives an absent share folder as `<workdir>/controlzone`.
    pub fn with_share_folder(self) -> (r: Result<MetaBuilder, CzError>)
        ensures
            r matches Ok(b) && {
                &&& b.meta.share_folder@ == if self.meta.share_folder@.len() > 0 {
                    self.meta.share_folder@
                } else {
                    self.workdir@ + "/"@ + "controlzone"@
                }
                &&& b.meta.name@ == self.meta.name@
                &&& b.meta.workdir@ == self.meta.workdir@
                &&& b.meta.full_config@ == self.meta.full_config@
                &&& b.workdir@ == self.workdir@
            },
    {
        let mut this = self;
        if this.meta.share_folder.as_str().is_empty() {
            this.meta.share_folder = join_path(this.workdir.as_str(), "controlzone");
        }
        Ok(this)
    }

    /// Derives an absent full-config path as `<workdir>/controlzone.yaml`.
    pub fn with_full_config(self) -> (r: Result<MetaBuilder, CzError>)
        ensures
            r matches Ok(b) && {
                &&& b.meta.full_config@ == if self.meta.full_config@.len() > 0 {
                    self.meta.full_config@
                } else {
                    self.workdir@ + "/"@ + "controlzone.yaml"@
                }
                &&& b.meta.name@ == self.meta.name@
                &&& b.meta.workdir@ == self.meta.workdir@
                &&& b.meta.share_folder@ == self.meta.share_folder@
                &&& b.workdir@ == self.workdir@
            },
    {
        let mut this = self;
        if this.meta.full_config.as_str().is_empty() {
            this.meta.full_config = join_path(this.workdir.as_str(), "controlzone.yaml");
        }
        Ok(this)
    }

    /// Hands the resolved `Meta` out.
    pub fn build(self) -> (r: Result<Meta, CzError>)
        ensures
            r matches Ok(m) && m == self.meta,
    {
        Ok(self.meta)
    }
}

} // verus!
