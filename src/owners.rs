use vstd::prelude::*;

verus! {

/// Which machine group an identifier (a capacity request or an instance)
/// belongs to.
pub struct Owner {
    pub id: String,
    pub group: String,
}

pub open spec fn owner_pair(o: Owner) -> (Seq<char>, Seq<char>) {
    (o.id@, o.group@)
}

pub open spec fn pairs(os: Seq<Owner>) -> Seq<(Seq<char>, Seq<char>)> {
    os.map_values(|o: Owner| owner_pair(o))
}

/// The group recorded for `id`; where `id` was recorded more than once, the
/// latest record holds.
pub open spec fn owner_of(book: Seq<(Seq<char>, Seq<char>)>, id: Seq<char>) -> Option<Seq<char>>
    decreases book.len(),
{
    if book.len() == 0 {
        None
    } else if book.last().0 == id {
        Some(book.last().1)
    } else {
        owner_of(book.drop_last(), id)
    }
}

/// Looks `id` up in `book`.
pub fn lookup_owner(book: &Vec<Owner>, id: &String) -> (r: Option<String>)
    ensures
        match r {
            Some(g) => owner_of(pairs(book@), id@) == Some(g@),
            None => owner_of(pairs(book@), id@) is None,
        },
{
    let mut i: usize = book.len();
    assert(book@.subrange(0, i as int) =~= book@);
    while i > 0
        invariant
            i <= book@.len(),
            owner_of(pairs(book@), id@) == owner_of(pairs(book@.subrange(0, i as int)), id@),
        decreases i,
    {
        assert(pairs(book@.subrange(0, i as int)).drop_last() == pairs(
            book@.subrange(0, i - 1),
        ));
        i = i - 1;
        if book[i].id == *id {
            return Some(book[i].group.clone());
        }
    }
    assert(pairs(book@.subrange(0, 0)).len() == 0);
    None
}

/// Appends one record per identifier in `ids`, each owned by `group`.
pub fn record_owners(book: &mut Vec<Owner>, group: &String, ids: &Vec<String>)
    ensures
        final(book)@.len() == old(book)@.len() + ids@.len(),
        final(book)@.subrange(0, old(book)@.len() as int) == old(book)@,
        forall|k: int|
            0 <= k < ids@.len() ==> owner_pair(#[trigger] final(book)@[old(book)@.len() + k]) == (
            ids@[k]@,
            group@,
        ),
{
    let mut k: usize = 0;
    while k < ids.len()
        invariant
            k <= ids@.len(),
            book@.len() == old(book)@.len() + k,
            book@.subrange(0, old(book)@.len() as int) == old(book)@,
            forall|j: int|
                0 <= j < k ==> owner_pair(#[trigger] book@[old(book)@.len() + j]) == (
                ids@[j]@,
                group@,
            ),
        decreases ids@.len() - k,
    {
        book.push(Owner { id: ids[k].clone(), group: group.clone() });
        assert(book@.subrange(0, old(book)@.len() as int) =~= old(book)@);
        k = k + 1;
    }
}

} // verus!
