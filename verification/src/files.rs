//! Names of the files the daemon keeps in its configuration directory: the
//! configuration file itself and the temporary files a save writes before it
//! renames them over the configuration, which a later start removes when a
//! crash left them behind.

use vstd::prelude::*;
use vstd::string::*;
use crate::config::string_views;
use crate::text::{decimal, decimal_digits, ends_with, seq_ends_with, seq_starts_with, starts_with};

verus! {

/// The name of the configuration file.
pub open spec fn config_file_name() -> Seq<char> {
    "cardwire.toml"@
}

/// What every temporary file name starts with.
pub open spec fn tmp_prefix() -> Seq<char> {
    "cardwire.toml."@
}

/// What every temporary file name ends with.
pub open spec fn tmp_suffix() -> Seq<char> {
    ".tmp"@
}

/// The name of the temporary file of a save marked with `unique`.
pub open spec fn tmp_file_name_of(unique: nat) -> Seq<char> {
    tmp_prefix() + decimal_digits(unique) + tmp_suffix()
}

/// Whether a file of the configuration directory is a temporary file left
/// behind by a save.
pub open spec fn is_stale_tmp(name: Seq<char>) -> bool {
    seq_starts_with(name, tmp_prefix()) && seq_ends_with(name, tmp_suffix())
}

/// The path of the configuration file in directory `dir`.
pub fn config_file_path(dir: &str) -> (r: String)
    ensures
        r@ == dir@ + "/"@ + config_file_name(),
{
    let mut r = String::from_str(dir);
    r.append("/");
    r.append("cardwire.toml");
    r
}

/// The name of the temporary file of a save marked with `unique`.
pub fn tmp_file_name(unique: u128) -> (r: String)
    ensures
        r@ == tmp_file_name_of(unique as nat),
{
    let mut r = String::from_str("cardwire.toml.");
    let digits = decimal(unique);
    r.append(digits.as_str());
    r.append(".tmp");
    r
}

/// The path of the temporary file of a save marked with `unique`, in
/// directory `dir`.
pub fn tmp_file_path(dir: &str, unique: u128) -> (r: String)
    ensures
        r@ == dir@ + "/"@ + tmp_file_name_of(unique as nat),
{
    let mut r = String::from_str(dir);
    r.append("/");
    let name = tmp_file_name(unique);
    r.append(name.as_str());
    proof {
        assert(r@ =~= dir@ + "/"@ + tmp_file_name_of(unique as nat));
    }
    r
}

/// Whether the file named `name` is a temporary file left behind by a save.
pub fn is_stale_tmp_name(name: &str) -> (r: bool)
    ensures
        r == is_stale_tmp(name@),
        r == (name@.len() >= 14 && name@.subrange(0, 14) == "cardwire.toml."@ && name@.len() >= 4
            && name@.subrange(name@.len() - 4, name@.len() as int) == ".tmp"@),
{
    proof {
        lemma_stale_means_tmp_name(name@);
    }
    starts_with(name, "cardwire.toml.") && ends_with(name, ".tmp")
}

/// Of the names of the files in the configuration directory, those of the
/// temporary files left behind by saves, in the order given.
pub fn stale_tmp_files(names: &[String]) -> (r: Vec<String>)
    ensures
        string_views(r@) == string_views(names@).filter(|n: Seq<char>| is_stale_tmp(n)),
{
    let ghost pred = |n: Seq<char>| is_stale_tmp(n);
    let mut r: Vec<String> = Vec::new();
    let n = names.len();
    let mut i: usize = 0;
    while i < n
        invariant
            n == names@.len(),
            i <= n,
            pred == (|n: Seq<char>| is_stale_tmp(n)),
            string_views(r@) =~= string_views(names@).take(i as int).filter(pred),
        decreases n - i,
    {
        reveal_with_fuel(Seq::<_>::filter, 1);
        let ghost views = string_views(names@);
        assert(views.take(i + 1).drop_last() =~= views.take(i as int));
        if is_stale_tmp_name(names[i].as_str()) {
            r.push(names[i].clone());
        }
        assert(string_views(r@) =~= views.take(i + 1).filter(pred));
        i = i + 1;
    }
    assert(string_views(names@).take(n as int) =~= string_views(names@));
    r
}

/// A file is taken for a leftover temporary file exactly when its name starts
/// with `cardwire.toml.` and ends with `.tmp`.
pub proof fn lemma_stale_means_tmp_name(n: Seq<char>)
    ensures
        is_stale_tmp(n) <==> (n.len() >= 14 && n.subrange(0, 14) == "cardwire.toml."@ && n.len() >= 4
            && n.subrange(n.len() - 4, n.len() as int) == ".tmp"@),
{
    reveal_strlit("cardwire.toml.");
    reveal_strlit(".tmp");
    assert("cardwire.toml."@.len() == 14);
    assert(".tmp"@.len() == 4);
}

/// Every name the clean-up removes is a leftover temporary file: it starts
/// with `cardwire.toml.` and ends with `.tmp`.
pub proof fn lemma_cleanup_removes_only_tmp_files(names: Seq<Seq<char>>, i: int)
    requires
        0 <= i < names.filter(|n: Seq<char>| is_stale_tmp(n)).len(),
    ensures
        ({
            let n = names.filter(|n: Seq<char>| is_stale_tmp(n))[i];
            n.len() >= 14 && n.subrange(0, 14) == "cardwire.toml."@
                && n.subrange(n.len() - 4, n.len() as int) == ".tmp"@
        }),
{
    names.lemma_filter_pred(|n: Seq<char>| is_stale_tmp(n), i);
    lemma_stale_means_tmp_name(names.filter(|n: Seq<char>| is_stale_tmp(n))[i]);
}

/// Every temporary file a save writes is one that the clean-up at start removes.
pub proof fn lemma_tmp_file_is_stale(unique: nat)
    ensures
        tmp_file_name_of(unique) == "cardwire.toml."@ + decimal_digits(unique) + ".tmp"@,
        is_stale_tmp(tmp_file_name_of(unique)),
{
    let name = tmp_file_name_of(unique);
    let d = decimal_digits(unique);
    assert(name.subrange(0, tmp_prefix().len() as int) =~= tmp_prefix());
    assert(name.subrange(name.len() - tmp_suffix().len(), name.len() as int) =~= tmp_suffix());
}

/// The clean-up at start never removes the configuration file itself.
pub proof fn lemma_config_file_not_stale()
    ensures
        config_file_name() == "cardwire.toml"@,
        !is_stale_tmp(config_file_name()),
{
    reveal_strlit("cardwire.toml");
    reveal_strlit("cardwire.toml.");
    assert(config_file_name().len() == 13);
    assert(tmp_prefix().len() == 14);
}

/// Saves marked differently write to different temporary files.
pub proof fn lemma_tmp_file_names_distinct(a: nat, b: nat)
    requires
        a != b,
    ensures
        tmp_file_name_of(a) != tmp_file_name_of(b),
{
    if tmp_file_name_of(a) == tmp_file_name_of(b) {
        let na = tmp_file_name_of(a);
        let p = tmp_prefix().len() as int;
        let s = tmp_suffix().len() as int;
        let nb = tmp_file_name_of(b);
        assert(na.len() == tmp_prefix().len() + decimal_digits(a).len() + tmp_suffix().len());
        assert(nb.len() == tmp_prefix().len() + decimal_digits(b).len() + tmp_suffix().len());
        assert(decimal_digits(a).len() == decimal_digits(b).len());
        assert(na.subrange(p, na.len() - s) =~= decimal_digits(a));
        assert(tmp_file_name_of(b).subrange(p, na.len() - s) =~= decimal_digits(b));
        crate::text::lemma_decimal_digits_injective(a, b);
    }
}

} // verus!
