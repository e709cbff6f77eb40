//! Target labels and configurations.
//!
//! A package names a directory of a cell; a target label names one rule in a
//! package; configuring it with `ConfigurationData` yields the configured
//! label that owns build outputs.

use vstd::prelude::*;

verus! {

use crate::cells::CellName;
use crate::paths::CellRelativePath;

/// The name of one target within a package.
#[derive(Clone, Debug, Hash, PartialEq, Eq)]
pub struct TargetNameRef {
    pub name: String,
}

impl TargetNameRef {
    /// Wraps a target name without validating it; the caller vouches for it.
    pub fn unchecked_new(name: &str) -> (r: Self)
        ensures
            r.name@ == name@,
    {
        TargetNameRef { name: name.to_owned() }
    }
}

/// A directory of a cell that holds build rules.
#[derive(Clone, Debug, Hash, PartialEq, Eq)]
pub struct PackageLabel {
    pub cell: CellName,
    pub path: CellRelativePath,
}

impl PackageLabel {
    /// Pairs a cell with a cell-relative directory.
    pub fn new(cell: CellName, path: CellRelativePath) -> (r: Self)
        ensures
            r.cell == cell,
            r.path == path,
    {
        PackageLabel { cell, path }
    }

    /// The cell the package lives in.
    pub fn cell_name(&self) -> (r: &CellName)
        ensures
            r == &self.cell,
    {
        &self.cell
    }

    /// The package's directory relative to its cell.
    pub fn cell_relative_path(&self) -> (r: &CellRelativePath)
        ensures
            r == &self.path,
    {
        &self.path
    }
}

/// One configuration a target can be built in.
#[derive(Clone, Debug, Hash, PartialEq, Eq)]
pub struct ConfigurationData {
    /// The configuration's full name; output hashes are derived from it.
    pub full_name: String,
}

impl ConfigurationData {
    /// A fixed configuration for test fixtures.
    pub fn testing_new() -> (r: Self)
        ensures
            r.full_name@ == "<testing>"@,
    {
        ConfigurationData { full_name: "<testing>".to_owned() }
    }
}

/// An unconfigured target label: a package plus a target name.
#[derive(Clone, Debug, Hash, PartialEq, Eq)]
pub struct TargetLabel {
    pub pkg: PackageLabel,
    pub name: String,
}

impl TargetLabel {
    /// Names target `name` of package `pkg`.
    pub fn new(pkg: PackageLabel, name: TargetNameRef) -> (r: Self)
        ensures
            r.pkg == pkg,
            r.name@ == name.name@,
    {
        TargetLabel { pkg, name: name.name }
    }

    /// Pairs the label with a configuration.
    pub fn configure(self, cfg: ConfigurationData) -> (r: ConfiguredTargetLabel)
        ensures
            r.pkg == self.pkg,
            r.name@ == self.name@,
            r.cfg == cfg,
    {
        ConfiguredTargetLabel { pkg: self.pkg, name: self.name, cfg }
    }
}

/// A target label in one fixed configuration.
#[derive(Clone, Debug, Hash, PartialEq, Eq)]
pub struct ConfiguredTargetLabel {
    pub pkg: PackageLabel,
    pub name: String,
    pub cfg: ConfigurationData,
}

/// The mathematical value of a configured target label: the characters of
/// its cell, package directory, target name and configuration.
#[verifier::ext_equal]
pub struct CfgTargetView {
    pub cell: Seq<char>,
    pub pkg: Seq<char>,
    pub name: Seq<char>,
    pub cfg: Seq<char>,
}

impl View for ConfiguredTargetLabel {
    type V = CfgTargetView;

    open spec fn view(&self) -> CfgTargetView {
        CfgTargetView {
            cell: self.pkg.cell.name@,
            pkg: self.pkg.path@,
            name: self.name@,
            cfg: self.cfg.full_name@,
        }
    }
}

impl ConfiguredTargetLabel {
    /// The package the target lives in.
    pub fn pkg(&self) -> (r: &PackageLabel)
        ensures
            r == &self.pkg,
    {
        &self.pkg
    }

    /// An equal label, built field by field.
    pub fn duplicate(&self) -> (r: Self)
        ensures
            r@ == self@,
    {
        ConfiguredTargetLabel {
            pkg: PackageLabel {
                cell: CellName { name: self.pkg.cell.name.clone() },
                path: self.pkg.path.duplicate(),
            },
            name: self.name.clone(),
            cfg: ConfigurationData { full_name: self.cfg.full_name.clone() },
        }
    }
}

} // verus!
