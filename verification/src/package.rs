//! The package record: one installable item of the catalog.

use vstd::prelude::*;

verus! {

/// One entry of the catalog. All seven fields are plain strings; the four
/// command fields are opaque shell command lines, not validated for shape.
/// Duplicate names are permitted: a package has no identity beyond its
/// field values.
pub struct Package {
    /// Display label and lookup key.
    pub name: String,
    /// Human-readable description, searched together with the name.
    pub description: String,
    /// URI or path of the package's icon; only the presentation layer reads it.
    pub icon: String,
    /// Shell command that installs the package.
    pub install_command: String,
    /// Shell command that removes the package.
    pub remove_command: String,
    /// Shell command that updates the package.
    pub update_command: String,
    /// Shell command whose exit status reports whether the package is installed.
    pub check_command: String,
}

impl Clone for Package {
    fn clone(&self) -> (res: Self)
        ensures
            res == *self,
    {
        Package {
            name: self.name.clone(),
            description: self.description.clone(),
            icon: self.icon.clone(),
            install_command: self.install_command.clone(),
            remove_command: self.remove_command.clone(),
            update_command: self.update_command.clone(),
            check_command: self.check_command.clone(),
        }
    }
}

/// Clones every record of a catalog; the copy holds the same packages in
/// the same order.
pub fn clone_catalog(catalog: &Vec<Package>) -> (res: Vec<Package>)
    ensures
        res@ == catalog@,
{
    let mut res: Vec<Package> = Vec::new();
    let mut i: usize = 0;
    while i < catalog.len()
        invariant
            i <= catalog.len(),
            res@ == catalog@.subrange(0, i as int),
        decreases catalog.len() - i,
    {
        res.push(catalog[i].clone());
        assert(res@ =~= catalog@.subrange(0, i + 1 as int));
        i = i + 1;
    }
    assert(res@ =~= catalog@);
    res
}

} // verus!
