use vstd::prelude::*;

verus! {

/// Character-for-character equality of two texts.
pub fn str_eq(a: &str, b: &str) -> (r: bool)
    ensures
        r == (a@ == b@),
{
    let na: usize = a.unicode_len();
    let nb: usize = b.unicode_len();
    if na != nb {
        return false;
    }
    let mut i: usize = 0;
    while i < na
        invariant
            0 <= i <= na,
            na == a@.len(),
            nb == b@.len(),
            na == nb,
            forall|j: int| 0 <= j < i ==> a@[j] == b@[j],
        decreases na - i,
    {
        if a.get_char(i) != b.get_char(i) {
            return false;
        }
        i = i + 1;
    }
    proof {
        assert(a@ =~= b@);
    }
    true
}

/// The mathematical image of an attribute list: each name with its decoded
/// value, in document order.
pub open spec fn attrs_view(a: Seq<(String, String)>) -> Seq<(Seq<char>, Seq<char>)> {
    a.map_values(|p: (String, String)| (p.0@, p.1@))
}

/// Value of the first attribute named `key`, or the empty text when the tag
/// carries no such attribute.
pub open spec fn attr_val(attrs: Seq<(Seq<char>, Seq<char>)>, key: Seq<char>) -> Seq<char>
    decreases attrs.len(),
{
    if attrs.len() == 0 {
        Seq::empty()
    } else if attrs[0].0 == key {
        attrs[0].1
    } else {
        attr_val(attrs.skip(1), key)
    }
}

/// Looks a named attribute up, first match first, absent meaning empty.
pub fn get_attr(attrs: &Vec<(String, String)>, key: &str) -> (v: String)
    ensures
        v@ == attr_val(attrs_view(attrs@), key@),
{
    let n: usize = attrs.len();
    let mut i: usize = 0;
    proof {
        assert(attrs_view(attrs@).skip(0) =~= attrs_view(attrs@));
    }
    while i < n
        invariant
            0 <= i <= n,
            n == attrs@.len(),
            attr_val(attrs_view(attrs@).skip(i as int), key@) == attr_val(
                attrs_view(attrs@),
                key@,
            ),
        decreases n - i,
    {
        proof {
            assert(attrs_view(attrs@).skip(i as int)[0] == attrs_view(attrs@)[i as int]);
            assert(attrs_view(attrs@).skip(i as int).skip(1) =~= attrs_view(attrs@).skip(
                i as int + 1,
            ));
        }
        if str_eq(attrs[i].0.as_str(), key) {
            return attrs[i].1.clone();
        }
        i = i + 1;
    }
    proof {
        assert(attrs_view(attrs@).skip(n as int) =~= Seq::<(Seq<char>, Seq<char>)>::empty());
    }
    String::new()
}

} // verus!
