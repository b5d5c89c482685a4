use vstd::prelude::*;

verus! {

/// An absolute (fully-qualified) DNS name: the sequence of its labels, from
/// the leftmost label towards the root, each label a sequence of bytes.
/// Names compare case-insensitively (ASCII folding); the stored casing is
/// preserved for display.
#[derive(Debug)]
pub struct DomainName {
    pub labels: Vec<Vec<u8>>,
}

impl View for DomainName {
    type V = Seq<Seq<u8>>;

    open spec fn view(&self) -> Seq<Seq<u8>> {
        self.labels@.map_values(|l: Vec<u8>| l@)
    }
}

/// ASCII case folding of one byte: uppercase letters map to lowercase,
/// every other byte is unchanged.
pub open spec fn fold_byte(b: u8) -> u8 {
    if 65 <= b && b <= 90 {
        (b + 32) as u8
    } else {
        b
    }
}

/// Case folding of one label, byte for byte.
pub open spec fn fold_label(l: Seq<u8>) -> Seq<u8> {
    l.map_values(|b: u8| fold_byte(b))
}

/// Case folding of a whole name, label for label. Two names denote the same
/// DNS name exactly when their folded forms are equal.
pub open spec fn fold_name(n: Seq<Seq<u8>>) -> Seq<Seq<u8>> {
    n.map_values(|l: Seq<u8>| fold_label(l))
}

fn fold_byte_exec(b: u8) -> (r: u8)
    ensures
        r == fold_byte(b),
{
    if 65 <= b && b <= 90 {
        b + 32
    } else {
        b
    }
}

/// Whether two labels are the same under ASCII case folding.
pub fn label_matches(a: &Vec<u8>, b: &Vec<u8>) -> (r: bool)
    ensures
        r == (fold_label(a@) == fold_label(b@)),
{
    if a.len() != b.len() {
        proof {
            assert(fold_label(a@).len() != fold_label(b@).len());
        }
        return false;
    }
    let mut i: usize = 0;
    while i < a.len()
        invariant
            a@.len() == b@.len(),
            i <= a@.len(),
            forall|j: int| 0 <= j < i ==> fold_label(a@)[j] == fold_label(b@)[j],
        decreases a@.len() - i,
    {
        let x = fold_byte_exec(a[i]);
        let y = fold_byte_exec(b[i]);
        if x != y {
            proof {
                assert(fold_label(a@)[i as int] != fold_label(b@)[i as int]);
            }
            return false;
        }
        i += 1;
    }
    proof {
        assert(fold_label(a@) =~= fold_label(b@));
    }
    true
}

/// Whether two names are the same under ASCII case folding.
pub fn name_matches(a: &DomainName, b: &DomainName) -> (r: bool)
    ensures
        r == (fold_name(a@) == fold_name(b@)),
{
    if a.labels.len() != b.labels.len() {
        proof {
            assert(fold_name(a@).len() != fold_name(b@).len());
        }
        return false;
    }
    let mut i: usize = 0;
    while i < a.labels.len()
        invariant
            a.labels@.len() == b.labels@.len(),
            i <= a.labels@.len(),
            forall|j: int| 0 <= j < i ==> fold_name(a@)[j] == fold_name(b@)[j],
        decreases a.labels@.len() - i,
    {
        if !label_matches(&a.labels[i], &b.labels[i]) {
            proof {
                assert(fold_name(a@)[i as int] != fold_name(b@)[i as int]);
            }
            return false;
        }
        i += 1;
    }
    proof {
        assert(fold_name(a@) =~= fold_name(b@));
    }
    true
}

/// An exact copy of one label.
pub fn clone_label(l: &Vec<u8>) -> (r: Vec<u8>)
    ensures
        r@ == l@,
{
    let mut r: Vec<u8> = Vec::new();
    let mut i: usize = 0;
    while i < l.len()
        invariant
            i <= l@.len(),
            r@ == l@.subrange(0, i as int),
        decreases l@.len() - i,
    {
        r.push(l[i]);
        proof {
            assert(r@ =~= l@.subrange(0, i + 1 as int));
        }
        i += 1;
    }
    proof {
        assert(r@ =~= l@);
    }
    r
}

impl Clone for DomainName {
    /// An exact copy: the same labels, casing included.
    fn clone(&self) -> (r: Self)
        ensures
            r@ == self@,
    {
        let mut labels: Vec<Vec<u8>> = Vec::new();
        let mut i: usize = 0;
        while i < self.labels.len()
            invariant
                i <= self.labels@.len(),
                labels@.len() == i,
                forall|j: int| 0 <= j < i ==> labels@[j]@ == self.labels@[j]@,
            decreases self.labels@.len() - i,
        {
            labels.push(clone_label(&self.labels[i]));
            i += 1;
        }
        let r = DomainName { labels };
        proof {
            assert(r@ =~= self@);
        }
        r
    }
}

} // verus!
