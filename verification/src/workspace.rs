//! Workspace planning: the collision-resistant directory name, the path of
//! every unpacked file, and which files receive executable permission bits.
//!
//! The filesystem work itself happens outside the core; this module computes
//! exactly what is to be written where.

use vstd::prelude::*;

use crate::selector::is_candidate;

verus! {

/// One embedded payload file: a forward-slash relative path and its bytes.
pub struct Asset {
    /// The path of the file below the workspace root.
    pub rel_path: String,
    /// The bytes to write there.
    pub content: Vec<u8>,
}

/// The immutable table of embedded payload files.
pub struct AssetSet {
    /// The payload files, in a fixed enumeration order.
    pub files: Vec<Asset>,
}

impl AssetSet {
    /// Relative paths are unique keys.
    pub open spec fn wf(&self) -> bool {
        forall|i: int, j: int|
            0 <= i < j < self.files@.len() ==> self.files@[i].rel_path@ != self.files@[j].rel_path@
    }

    /// The relative-path views, in enumeration order.
    pub open spec fn name_views(&self) -> Seq<Seq<char>> {
        Seq::new(self.files@.len(), |i: int| self.files@[i].rel_path@)
    }
}

/// One planned filesystem write: the destination of an asset and whether its
/// permission bits are to be set executable after the write.
pub struct WriteStep {
    /// The absolute destination path, workspace root plus relative path.
    pub dest_path: String,
    /// Set `rwxr-xr-x` on the written file (asked for exactly when the name
    /// carries an executable suffix).
    pub make_executable: bool,
}

/// The character standing for the hex digit `d`.
pub open spec fn hex_digit_char(d: nat) -> char {
    if d == 0 {
        '0'
    } else if d == 1 {
        '1'
    } else if d == 2 {
        '2'
    } else if d == 3 {
        '3'
    } else if d == 4 {
        '4'
    } else if d == 5 {
        '5'
    } else if d == 6 {
        '6'
    } else if d == 7 {
        '7'
    } else if d == 8 {
        '8'
    } else if d == 9 {
        '9'
    } else if d == 10 {
        'a'
    } else if d == 11 {
        'b'
    } else if d == 12 {
        'c'
    } else if d == 13 {
        'd'
    } else if d == 14 {
        'e'
    } else {
        'f'
    }
}

/// The lowercase hex rendering of `n`, without leading zeros (`0` for zero).
pub open spec fn u64_hex(n: nat) -> Seq<char>
    decreases n,
{
    if n < 16 {
        seq![hex_digit_char(n)]
    } else {
        u64_hex(n / 16) + seq![hex_digit_char(n % 16)]
    }
}

/// The one-character string for the hex digit `d`.
fn hex_digit_str(d: u64) -> (r: &'static str)
    requires
        d < 16,
    ensures
        r@ == seq![hex_digit_char(d as nat)],
{
    if d == 0 {
        proof {
            reveal_strlit("0");
        }
        let r = "0";
        proof {
            assert(r@ =~= seq![hex_digit_char(d as nat)]);
        }
        r
    } else if d == 1 {
        proof {
            reveal_strlit("1");
        }
        let r = "1";
        proof {
            assert(r@ =~= seq![hex_digit_char(d as nat)]);
        }
        r
    } else if d == 2 {
        proof {
            reveal_strlit("2");
        }
        let r = "2";
        proof {
            assert(r@ =~= seq![hex_digit_char(d as nat)]);
        }
        r
    } else if d == 3 {
        proof {
            reveal_strlit("3");
        }
        let r = "3";
        proof {
            assert(r@ =~= seq![hex_digit_char(d as nat)]);
        }
        r
    } else if d == 4 {
        proof {
            reveal_strlit("4");
        }
        let r = "4";
        proof {
            assert(r@ =~= seq![hex_digit_char(d as nat)]);
        }
        r
    } else if d == 5 {
        proof {
            reveal_strlit("5");
        }
        let r = "5";
        proof {
            assert(r@ =~= seq![hex_digit_char(d as nat)]);
        }
        r
    } else if d == 6 {
        proof {
            reveal_strlit("6");
        }
        let r = "6";
        proof {
            assert(r@ =~= seq![hex_digit_char(d as nat)]);
        }
        r
    } else if d == 7 {
        proof {
            reveal_strlit("7");
        }
        let r = "7";
        proof {
            assert(r@ =~= seq![hex_digit_char(d as nat)]);
        }
        r
    } else if d == 8 {
        proof {
            reveal_strlit("8");
        }
        let r = "8";
        proof {
            assert(r@ =~= seq![hex_digit_char(d as nat)]);
        }
        r
    } else if d == 9 {
        proof {
            reveal_strlit("9");
        }
        let r = "9";
        proof {
            assert(r@ =~= seq![hex_digit_char(d as nat)]);
        }
        r
    } else if d == 10 {
        proof {
            reveal_strlit("a");
        }
        let r = "a";
        proof {
            assert(r@ =~= seq![hex_digit_char(d as nat)]);
        }
        r
    } else if d == 11 {
        proof {
            reveal_strlit("b");
        }
        let r = "b";
        proof {
            assert(r@ =~= seq![hex_digit_char(d as nat)]);
        }
        r
    } else if d == 12 {
        proof {
            reveal_strlit("c");
        }
        let r = "c";
        proof {
            assert(r@ =~= seq![hex_digit_char(d as nat)]);
        }
        r
    } else if d == 13 {
        proof {
            reveal_strlit("d");
        }
        let r = "d";
        proof {
            assert(r@ =~= seq![hex_digit_char(d as nat)]);
        }
        r
    } else if d == 14 {
        proof {
            reveal_strlit("e");
        }
        let r = "e";
        proof {
            assert(r@ =~= seq![hex_digit_char(d as nat)]);
        }
        r
    } else {
        proof {
            reveal_strlit("f");
        }
        let r = "f";
        proof {
            assert(r@ =~= seq![hex_digit_char(d as nat)]);
        }
        r
    }
}

/// The lowercase hex rendering of `n`.
pub fn u64_to_hex(n: u64) -> (r: String)
    ensures
        r@ == u64_hex(n as nat),
    decreases n,
{
    if n < 16 {
        String::from_str(hex_digit_str(n))
    } else {
        let mut s = u64_to_hex(n / 16);
        s.append(hex_digit_str(n % 16));
        proof {
            assert(s@ =~= u64_hex(n as nat));
        }
        s
    }
}

/// Relies on `rand::random` for collision-resistant randomness; nothing is
/// assumed of the value drawn.
pub assume_specification<T>[ rand::random::<T> ]() -> (r: T)
    where
        rand::distributions::Standard: rand::distributions::Distribution<T>,
;

/// A fresh workspace directory name: the hex form of a random 64-bit value.
/// Every outcome is a nonempty hex string; which one comes out is chance.
pub fn fresh_workspace_name() -> (r: String)
    ensures
        exists|n: u64| r@ == u64_hex(n as nat),
{
    let n: u64 = rand::random::<u64>();
    let r = u64_to_hex(n);
    proof {
        assert(r@ == u64_hex(n as nat));
    }
    r
}

/// `dir` and `rel` joined with a forward slash.
pub fn join_path(dir: &str, rel: &str) -> (r: String)
    ensures
        r@ == dir@ + "/"@ + rel@,
{
    let mut s = String::from_str(dir);
    s.append("/");
    s.append(rel);
    proof {
        assert(s@ =~= dir@ + "/"@ + rel@);
    }
    s
}

/// The prefix of `path` up to (excluding) its last slash; empty when `path`
/// holds no slash.
pub fn parent_dir(path: &str) -> (r: String)
    ensures
        r@.len() <= path@.len(),
        r@ == path@.subrange(0, r@.len() as int),
        (exists|j: int| 0 <= j < path@.len() && path@[j] == '/') ==> r@.len() < path@.len()
            && path@[r@.len() as int] == '/' && (forall|j: int|
            r@.len() < j < path@.len() ==> path@[j] != '/'),
        !(exists|j: int| 0 <= j < path@.len() && path@[j] == '/') ==> r@.len() == 0,
{
    let n: usize = path.unicode_len();
    let mut k: usize = n;
    while k > 0
        invariant
            k <= n,
            n == path@.len(),
            forall|j: int| k <= j < n ==> path@[j] != '/',
        decreases k,
    {
        if path.get_char(k - 1) == '/' {
            let rel = path.substring_char(0, k - 1);
            let r = String::from_str(rel);
            proof {
                assert(r@ == path@.subrange(0, r@.len() as int));
            }
            return r;
        }
        k -= 1;
    }
    let r = String::new();
    proof {
        assert(r@ =~= path@.subrange(0, 0));
    }
    r
}

/// The plan of filesystem writes that populates `workspace_dir` from the
/// assets: one step per asset, in enumeration order, each writing below the
/// workspace root and asking for executable permissions exactly when the name
/// carries one of the executable suffixes.
pub fn build_unpack_plan(workspace_dir: &str, assets: &AssetSet, suffixes: &Vec<String>) -> (plan:
    Vec<WriteStep>)
    ensures
        plan@.len() == assets.files@.len(),
        forall|i: int|
            0 <= i < plan@.len() ==> plan@[i].dest_path@ == workspace_dir@ + "/"@
                + assets.files@[i].rel_path@,
        forall|i: int|
            0 <= i < plan@.len() ==> plan@[i].make_executable == is_candidate(
                assets.files@[i].rel_path@,
                suffixes.deep_view(),
            ),
        assets.wf() ==> (forall|i: int, j: int|
            0 <= i < j < plan@.len() ==> plan@[i].dest_path@ != plan@[j].dest_path@),
{
    let mut plan: Vec<WriteStep> = Vec::new();
    let mut i: usize = 0;
    while i < assets.files.len()
        invariant
            i <= assets.files@.len(),
            plan@.len() == i,
            forall|t: int|
                0 <= t < i ==> plan@[t].dest_path@ == workspace_dir@ + "/"@
                    + assets.files@[t].rel_path@,
            forall|t: int|
                0 <= t < i ==> plan@[t].make_executable == is_candidate(
                    assets.files@[t].rel_path@,
                    suffixes.deep_view(),
                ),
        decreases assets.files@.len() - i,
    {
        let dest = join_path(workspace_dir, assets.files[i].rel_path.as_str());
        let mk = crate::selector::name_is_candidate(assets.files[i].rel_path.as_str(), suffixes);
        plan.push(WriteStep { dest_path: dest, make_executable: mk });
        i += 1;
    }
    proof {
        if assets.wf() {
            let p = workspace_dir@ + "/"@;
            assert forall|s: int, t: int|
                0 <= s < t < plan@.len() implies plan@[s].dest_path@ != plan@[t].dest_path@ by {
                if plan@[s].dest_path@ == plan@[t].dest_path@ {
                    assert(assets.files@[s].rel_path@ =~= plan@[s].dest_path@.subrange(
                        p.len() as int,
                        plan@[s].dest_path@.len() as int,
                    ));
                    assert(assets.files@[t].rel_path@ =~= plan@[t].dest_path@.subrange(
                        p.len() as int,
                        plan@[t].dest_path@.len() as int,
                    ));
                }
            }
        }
    }
    plan
}

/// Select the launch target among the assets and resolve it to its absolute
/// path below the workspace root, by the selection policy of
/// `crate::selector::spec_select` over the asset names in enumeration order.
pub fn select_launch_target(
    workspace_dir: &str,
    assets: &AssetSet,
    suffixes: &Vec<String>,
) -> (r: Result<String, crate::errors::LauncherError>)
    ensures
        r matches Ok(p) ==> {
            &&& crate::selector::spec_select(assets.name_views(), suffixes.deep_view()) is Ok
            &&& {
                let i = crate::selector::spec_select(
                    assets.name_views(),
                    suffixes.deep_view(),
                )->Ok_0;
                0 <= i < assets.files@.len() && p@ == workspace_dir@ + "/"@
                    + assets.files@[i].rel_path@
            }
        },
        r matches Err(e) ==> crate::selector::spec_select(
            assets.name_views(),
            suffixes.deep_view(),
        ) == Err::<int, crate::errors::LauncherError>(e),
{
    let names = asset_names(assets);
    match crate::selector::select_executable(&names, suffixes) {
        Ok(i) => Ok(join_path(workspace_dir, assets.files[i].rel_path.as_str())),
        Err(e) => Err(e),
    }
}

/// The relative-path names of the assets, in enumeration order.
pub fn asset_names(assets: &AssetSet) -> (names: Vec<String>)
    ensures
        names.deep_view() == assets.name_views(),
{
    let mut names: Vec<String> = Vec::new();
    let mut i: usize = 0;
    while i < assets.files.len()
        invariant
            i <= assets.files@.len(),
            names@.len() == i,
            forall|t: int| 0 <= t < i ==> names@[t]@ == assets.files@[t].rel_path@,
        decreases assets.files@.len() - i,
    {
        names.push(assets.files[i].rel_path.clone());
        i += 1;
    }
    proof {
        assert(names.deep_view() =~= assets.name_views());
    }
    names
}

} // verus!
