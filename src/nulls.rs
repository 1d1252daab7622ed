use vstd::prelude::*;

verus! {

/// The values present in `s`, in order, with the absent entries left out.
pub open spec fn present<T>(s: Seq<Option<T>>) -> Seq<T>
    decreases s.len(),
{
    if s.len() == 0 {
        Seq::empty()
    } else {
        let rest = present(s.drop_first());
        match s[0] {
            Some(v) => seq![v] + rest,
            None => rest,
        }
    }
}

/// A list read from a column that may hold nulls, with the nulls dropped.
pub struct VecNoNulls<T>(pub Vec<T>);

impl<T> VecNoNulls<T> {
    /// Keeps the present entries of `vec`, in order.
    pub fn build(vec: Vec<Option<T>>) -> (r: VecNoNulls<T>)
        ensures
            r.0@ == present(vec@),
    {
        let mut rest = vec;
        let mut out: Vec<T> = Vec::new();
        while rest.len() > 0
            invariant
                out@ + present(rest@) == present(vec@),
            decreases rest@.len(),
        {
            let ghost before = rest@;
            let item = rest.remove(0);
            proof {
                assert(rest@ =~= before.drop_first());
            }
            match item {
                Some(v) => {
                    out.push(v);
                    proof {
                        assert(out@ + present(rest@) =~= out@.drop_last() + (seq![v] + present(rest@)));
                    }
                },
                None => {},
            }
        }
        assert(present(rest@) =~= Seq::<T>::empty());
        assert(out@ + present(rest@) =~= out@);
        VecNoNulls(out)
    }
}

impl<T> From<VecNoNulls<T>> for Vec<T> {
    fn from(vec: VecNoNulls<T>) -> (r: Vec<T>)
        ensures
            r@ == vec.0@,
    {
        vec.0
    }
}

impl<T> vstd::std_specs::convert::FromSpecImpl<VecNoNulls<T>> for Vec<T> {
    open spec fn obeys_from_spec() -> bool {
        true
    }

    open spec fn from_spec(v: VecNoNulls<T>) -> Vec<T> {
        v.0
    }
}

} // verus!
