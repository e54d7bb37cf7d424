//! Containment check for the relative name carried by a frame. A name
//! from the wire is joined to the destination root, so before any file
//! I/O the receiver refuses names that could escape that root: empty
//! names, absolute names, and names with a `..` segment.
use vstd::prelude::*;

verus! {

/// Byte value of `/`, the path separator on the wire.
pub const SEP: u8 = 47;

/// Byte value of `.`.
pub const DOT: u8 = 46;

/// A `..` path segment starts at position `i` of `s`: two dots bounded on
/// each side by a separator or by an end of the name.
pub open spec fn dotdot_at(s: Seq<u8>, i: int) -> bool {
    &&& 0 <= i
    &&& i + 2 <= s.len()
    &&& s[i] == DOT
    &&& s[i + 1] == DOT
    &&& (i == 0 || s[i - 1] == SEP)
    &&& (i + 2 == s.len() || s[i + 2] == SEP)
}

/// A name may be joined to the destination root: it is non-empty, not
/// absolute, and no segment of it is `..`.
pub open spec fn safe_name(s: Seq<u8>) -> bool {
    &&& s.len() > 0
    &&& s[0] != SEP
    &&& forall|i: int| !dotdot_at(s, i)
}

/// Decides whether a relative name from the wire may be used under the
/// destination root.
pub fn name_is_safe(name: &[u8]) -> (r: bool)
    ensures
        r == safe_name(name@),
{
    if name.len() == 0 {
        return false;
    }
    if name[0] == SEP {
        return false;
    }
    let n = name.len();
    let mut i: usize = 0;
    while n - i >= 2
        invariant
            n == name@.len(),
            i <= n,
            forall|j: int| j < i ==> !dotdot_at(name@, j),
        decreases n - i,
    {
        let two_dots = name[i] == DOT && name[i + 1] == DOT;
        let left_ok = i == 0 || name[i - 1] == SEP;
        let right_ok = i + 2 == n || name[i + 2] == SEP;
        if two_dots && left_ok && right_ok {
            assert(dotdot_at(name@, i as int));
            return false;
        }
        assert(!dotdot_at(name@, i as int));
        i += 1;
    }
    assert forall|j: int| !dotdot_at(name@, j) by {
        if j >= i {
            assert(j + 2 > n);
        }
    }
    true
}

/// The bytes of the `.part` suffix that marks an in-flight temporary
/// file.
pub open spec fn part_suffix() -> Seq<u8> {
    seq![DOT, 112u8, 97u8, 114u8, 116u8]
}

/// The destination path of a published file: the destination root, one
/// separator, then the relative name.
pub fn dest_path_bytes(root: &[u8], name: &[u8]) -> (r: Vec<u8>)
    ensures
        r@ == root@ + seq![SEP] + name@,
{
    let mut r: Vec<u8> = Vec::new();
    let mut i: usize = 0;
    while i < root.len()
        invariant
            i <= root@.len(),
            r@ == root@.subrange(0, i as int),
        decreases root@.len() - i,
    {
        r.push(root[i]);
        i += 1;
        proof {
            assert(r@ =~= root@.subrange(0, i as int));
        }
    }
    proof {
        assert(root@.subrange(0, root@.len() as int) =~= root@);
    }
    r.push(SEP);
    let mut j: usize = 0;
    while j < name.len()
        invariant
            j <= name@.len(),
            r@ == root@ + seq![SEP] + name@.subrange(0, j as int),
        decreases name@.len() - j,
    {
        r.push(name[j]);
        j += 1;
        proof {
            assert(r@ =~= root@ + seq![SEP] + name@.subrange(0, j as int));
        }
    }
    proof {
        assert(root@ + seq![SEP] + name@.subrange(0, name@.len() as int) =~= root@ + seq![SEP]
            + name@);
    }
    r
}

/// The temporary path an in-flight transfer is buffered at: the final
/// destination path with the `.part` suffix. Never a final name itself:
/// it is strictly longer than the path it marks.
pub fn temp_path_bytes(dest: &[u8]) -> (r: Vec<u8>)
    ensures
        r@ == dest@ + part_suffix(),
        r@.len() > dest@.len(),
{
    let mut r: Vec<u8> = Vec::new();
    let mut i: usize = 0;
    while i < dest.len()
        invariant
            i <= dest@.len(),
            r@ == dest@.subrange(0, i as int),
        decreases dest@.len() - i,
    {
        r.push(dest[i]);
        i += 1;
        proof {
            assert(r@ =~= dest@.subrange(0, i as int));
        }
    }
    proof {
        assert(dest@.subrange(0, dest@.len() as int) =~= dest@);
    }
    r.push(DOT);
    r.push(112);
    r.push(97);
    r.push(114);
    r.push(116);
    proof {
        assert(r@ =~= dest@ + part_suffix());
    }
    r
}


/// What the containment check buys: joining the destination root to a
/// vetted name puts the separator exactly between the two, and no `..`
/// segment can start anywhere in the name's part of the joined path —
/// the name cannot climb out of the root.
pub proof fn lemma_safe_join(root: Seq<u8>, name: Seq<u8>)
    requires
        safe_name(name),
    ensures
        (root + seq![SEP] + name)[root.len() as int] == SEP,
        forall|j: int| j > root.len() ==> !dotdot_at(root + seq![SEP] + name, j),
{
    let joined = root + seq![SEP] + name;
    assert forall|j: int| j > root.len() implies !dotdot_at(joined, j) by {
        if dotdot_at(joined, j) {
            let i = j - root.len() - 1;
            assert(joined[j] == name[i]);
            assert(joined[j + 1] == name[i + 1]);
            if i == 0 {
                assert(joined[j - 1] == SEP);
            } else {
                assert(joined[j - 1] == name[i - 1]);
            }
            if j + 2 < joined.len() {
                assert(joined[j + 2] == name[i + 2]);
            }
            assert(dotdot_at(name, i));
        }
    }
}

} // verus!
