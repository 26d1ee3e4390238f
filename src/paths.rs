use vstd::prelude::*;
use crate::error::VaultError;
use crate::text::chars_of;

verus! {

// Paths here are POSIX paths: `/` is the only separator, so a `\` is an
// ordinary character of a component. The storage layout is meant for
// platforms with POSIX paths.

/// Default storage directory, relative to home.
pub const VAULT_DIR: &'static str = ".terminal-vault";
pub const VAULT_FILE: &'static str = "vault.json";
pub const LOCK_FILE: &'static str = "lock.json";
pub const META_FILE: &'static str = "meta.json";
pub const CONFIG_FILE: &'static str = "config.json";

pub open spec fn is_absolute(p: Seq<char>) -> bool {
    p.len() > 0 && p[0] == '/'
}

/// `rel` appended to `base` with one separator between them; an absolute
/// `rel` replaces `base`.
pub open spec fn joined(base: Seq<char>, rel: Seq<char>) -> Seq<char> {
    if is_absolute(rel) {
        rel
    } else if base.len() == 0 || base.last() == '/' {
        base + rel
    } else {
        base + seq!['/'] + rel
    }
}

/// A finished segment counts as a component unless it is empty or `.`.
pub open spec fn close_segment(done: Seq<Seq<char>>, cur: Seq<char>) -> Seq<Seq<char>> {
    if cur.len() == 0 || cur == seq!['.'] {
        done
    } else {
        done.push(cur)
    }
}

/// The components finished so far and the segment under way, reading `p`
/// from the left.
pub open spec fn scan_components(p: Seq<char>) -> (Seq<Seq<char>>, Seq<char>)
    decreases p.len(),
{
    if p.len() == 0 {
        (seq![], seq![])
    } else {
        let (done, cur) = scan_components(p.drop_last());
        if p.last() == '/' {
            (close_segment(done, cur), seq![])
        } else {
            (done, cur.push(p.last()))
        }
    }
}

/// The normal components of a path: its `/`-separated segments, without
/// empty and `.` segments.
pub open spec fn components(p: Seq<char>) -> Seq<Seq<char>> {
    close_segment(scan_components(p).0, scan_components(p).1)
}

pub open spec fn is_parent_ref(c: Seq<char>) -> bool {
    c == seq!['.', '.']
}

pub open spec fn has_parent_ref(p: Seq<char>) -> bool {
    exists|i: int| 0 <= i < components(p).len() && #[trigger] is_parent_ref(components(p)[i])
}

pub open spec fn seq_prefix(a: Seq<Seq<char>>, b: Seq<Seq<char>>) -> bool {
    a.len() <= b.len() && forall|i: int| 0 <= i < a.len() ==> #[trigger] a[i] == b[i]
}

/// `p` lies at or below `root`, component by component.
pub open spec fn path_within(p: Seq<char>, root: Seq<char>) -> bool {
    is_absolute(p) == is_absolute(root) && seq_prefix(components(root), components(p))
}

/// The storage directory that `raw` names: resolved against home when
/// relative, and refused when it holds a `..` component or leaves home.
pub open spec fn resolved_dir(raw: Seq<char>, home: Seq<char>) -> Result<Seq<char>, VaultError> {
    let candidate = joined(home, raw);
    if has_parent_ref(candidate) {
        Err(VaultError::PathValidation)
    } else if !path_within(candidate, home) {
        Err(VaultError::PathValidation)
    } else {
        Ok(candidate)
    }
}

pub open spec fn seg_views(v: Seq<Vec<char>>) -> Seq<Seq<char>> {
    v.map_values(|s: Vec<char>| s@)
}

/// Joins a relative path onto a base; an absolute one stands alone.
pub fn join_path(base: &str, rel: &str) -> (r: String)
    ensures
        r@ == joined(base@, rel@),
{
    let rel_len = rel.unicode_len();
    if rel_len > 0 && rel.get_char(0) == '/' {
        return String::from_str(rel);
    }
    let mut out = String::from_str(base);
    let base_len = base.unicode_len();
    if base_len > 0 && base.get_char(base_len - 1) != '/' {
        let sep = "/";
        proof {
            reveal_strlit("/");
        }
        out.append(sep);
    }
    out.append(rel);
    out
}

fn same_chars(a: &Vec<char>, b: &Vec<char>) -> (r: bool)
    ensures
        r == (a@ == b@),
{
    if a.len() != b.len() {
        return false;
    }
    let mut i: usize = 0;
    while i < a.len()
        invariant
            a@.len() == b@.len(),
            i <= a@.len(),
            forall|j: int| 0 <= j < i ==> a@[j] == b@[j],
        decreases a@.len() - i,
    {
        if a[i] != b[i] {
            return false;
        }
        i += 1;
    }
    assert(a@ =~= b@);
    true
}

fn close_segment_exec(done: &mut Vec<Vec<char>>, cur: Vec<char>)
    ensures
        seg_views(final(done)@) == close_segment(seg_views(old(done)@), cur@),
{
    let skip = cur.len() == 0 || (cur.len() == 1 && cur[0] == '.');
    proof {
        if cur@.len() == 1 && cur@[0] == '.' {
            assert(cur@ =~= seq!['.']);
        }
        if cur@ == seq!['.'] {
            assert(cur@.len() == 1);
        }
    }
    if !skip {
        let ghost before = done@;
        done.push(cur);
        assert(seg_views(done@) =~= seg_views(before).push(cur@));
    }
}

/// The normal components of a path.
pub fn path_components(p: &str) -> (r: Vec<Vec<char>>)
    ensures
        seg_views(r@) == components(p@),
{
    let chars = chars_of(p);
    let mut done: Vec<Vec<char>> = Vec::new();
    let mut cur: Vec<char> = Vec::new();
    let mut i: usize = 0;
    proof {
        assert(p@.subrange(0, 0) =~= Seq::<char>::empty());
        assert(seg_views(done@) =~= Seq::<Seq<char>>::empty());
    }
    while i < chars.len()
        invariant
            chars@ == p@,
            i <= chars@.len(),
            (seg_views(done@), cur@) == scan_components(p@.subrange(0, i as int)),
        decreases chars@.len() - i,
    {
        let c = chars[i];
        assert(p@.subrange(0, i + 1).drop_last() =~= p@.subrange(0, i as int));
        if c == '/' {
            let seg = cur;
            cur = Vec::new();
            close_segment_exec(&mut done, seg);
        } else {
            cur.push(c);
        }
        i += 1;
    }
    assert(p@.subrange(0, i as int) =~= p@);
    close_segment_exec(&mut done, cur);
    done
}

fn has_parent_component(comps: &Vec<Vec<char>>) -> (r: bool)
    ensures
        r == exists|i: int| 0 <= i < comps@.len() && #[trigger] is_parent_ref(seg_views(comps@)[i]),
{
    let mut i: usize = 0;
    while i < comps.len()
        invariant
            i <= comps@.len(),
            forall|j: int| 0 <= j < i ==> !#[trigger] is_parent_ref(seg_views(comps@)[j]),
        decreases comps@.len() - i,
    {
        let c = &comps[i];
        assert(seg_views(comps@)[i as int] == comps@[i as int]@);
        if c.len() == 2 && c[0] == '.' && c[1] == '.' {
            assert(c@ =~= seq!['.', '.']);
            assert(is_parent_ref(seg_views(comps@)[i as int]));
            return true;
        }
        proof {
            if is_parent_ref(seg_views(comps@)[i as int]) {
                assert(seg_views(comps@)[i as int][0] == '.');
            }
        }
        i += 1;
    }
    false
}

fn components_prefix(a: &Vec<Vec<char>>, b: &Vec<Vec<char>>) -> (r: bool)
    ensures
        r == seq_prefix(seg_views(a@), seg_views(b@)),
{
    if a.len() > b.len() {
        return false;
    }
    let mut i: usize = 0;
    while i < a.len()
        invariant
            a@.len() <= b@.len(),
            i <= a@.len(),
            forall|j: int| 0 <= j < i ==> #[trigger] seg_views(a@)[j] == seg_views(b@)[j],
        decreases a@.len() - i,
    {
        assert(seg_views(a@)[i as int] == a@[i as int]@);
        assert(seg_views(b@)[i as int] == b@[i as int]@);
        if !same_chars(&a[i], &b[i]) {
            return false;
        }
        i += 1;
    }
    true
}

fn starts_with_root(p: &str) -> (r: bool)
    ensures
        r == is_absolute(p@),
{
    p.unicode_len() > 0 && p.get_char(0) == '/'
}

/// Whether `p` lies at or below `root`, component by component.
pub fn is_within(p: &str, root: &str) -> (r: bool)
    ensures
        r == path_within(p@, root@),
{
    if starts_with_root(p) != starts_with_root(root) {
        return false;
    }
    let pc = path_components(p);
    let rc = path_components(root);
    components_prefix(&rc, &pc)
}

/// Validates a storage directory: resolved against home when relative,
/// refused when it holds a `..` component or does not lie inside home.
pub fn resolve_vault_dir_under_home(raw: &str, home: &str) -> (r: Result<String, VaultError>)
    ensures
        match r {
            Ok(s) => resolved_dir(raw@, home@) == Ok::<Seq<char>, VaultError>(s@),
            Err(e) => resolved_dir(raw@, home@) == Err::<Seq<char>, VaultError>(e),
        },
{
    let candidate = join_path(home, raw);
    let comps = path_components(candidate.as_str());
    if has_parent_component(&comps) {
        return Err(VaultError::PathValidation);
    }
    if !is_within(candidate.as_str(), home) {
        return Err(VaultError::PathValidation);
    }
    Ok(candidate)
}

/// After symbolic links are resolved: refuses a real location outside the
/// real home directory.
pub fn check_real_location(real_path: &str, home_real: &str) -> (r: Result<(), VaultError>)
    ensures
        r is Ok <==> path_within(real_path@, home_real@),
        r matches Err(e) ==> e == VaultError::PathValidation,
{
    if is_within(real_path, home_real) {
        Ok(())
    } else {
        Err(VaultError::PathValidation)
    }
}

pub open spec fn opt_view(o: Option<String>) -> Option<Seq<char>> {
    match o {
        Some(s) => Some(s@),
        None => None,
    }
}

/// The rule on real locations, once symbolic links are resolved: when the
/// candidate exists, its real path must lie inside the real home; else,
/// when its parent exists, the parent's real path must; else there is
/// nothing on disk to check.
pub open spec fn real_location_ok(candidate_real: Option<Seq<char>>, parent_real: Option<Seq<char>>, home_real: Seq<char>) -> bool {
    match candidate_real {
        Some(c) => path_within(c, home_real),
        None => match parent_real {
            Some(p) => path_within(p, home_real),
            None => true,
        },
    }
}

/// Applies the real-location rule. `candidate_real` is the resolved
/// candidate if it exists; `parent_real` the resolved parent if the
/// candidate does not exist and the parent does; `home_real` the resolved
/// home (or home itself when it cannot be resolved).
pub fn validate_real_location(candidate_real: &Option<String>, parent_real: &Option<String>, home_real: &str)
    -> (r: Result<(), VaultError>)
    ensures
        r is Ok <==> real_location_ok(opt_view(*candidate_real), opt_view(*parent_real), home_real@),
        r matches Err(e) ==> e == VaultError::PathValidation,
{
    match candidate_real {
        Some(c) => check_real_location(c.as_str(), home_real),
        None => match parent_real {
            Some(p) => check_real_location(p.as_str(), home_real),
            None => Ok(()),
        },
    }
}

/// The default storage directory under a home directory.
pub fn default_base_dir(home: &str) -> (r: String)
    ensures
        r@ == joined(home@, VAULT_DIR@),
{
    join_path(home, VAULT_DIR)
}

/// Where the configuration file lives: always in the default directory.
pub fn config_path(home: &str) -> (r: String)
    ensures
        r@ == joined(joined(home@, VAULT_DIR@), CONFIG_FILE@),
{
    let base = default_base_dir(home);
    join_path(base.as_str(), CONFIG_FILE)
}

/// The vault file in a storage directory.
pub fn vault_path(base_dir: &str) -> (r: String)
    ensures
        r@ == joined(base_dir@, VAULT_FILE@),
{
    join_path(base_dir, VAULT_FILE)
}

/// The lock file in a storage directory.
pub fn lock_path(base_dir: &str) -> (r: String)
    ensures
        r@ == joined(base_dir@, LOCK_FILE@),
{
    join_path(base_dir, LOCK_FILE)
}

/// The legacy meta file in a storage directory.
pub fn meta_path(base_dir: &str) -> (r: String)
    ensures
        r@ == joined(base_dir@, META_FILE@),
{
    join_path(base_dir, META_FILE)
}

} // verus!
