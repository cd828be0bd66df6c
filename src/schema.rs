use vstd::prelude::*;
use vstd::string::StringExecFns;

verus! {

/// What a schema statement creates.
#[derive(Clone, Copy, Debug, PartialEq, Eq, Structural)]
pub enum ObjectKind {
    Table,
    Index,
}

/// One guarded creation: `CREATE <kind> IF NOT EXISTS <name> <definition>;`.
#[derive(Clone, Copy, Debug)]
pub struct SchemaObject {
    pub kind: ObjectKind,
    pub name: &'static str,
    pub definition: &'static str,
}

/// The names of the database's schema objects, each with its kind.
pub type Catalog = Map<Seq<char>, ObjectKind>;

pub open spec fn kind_keyword(k: ObjectKind) -> Seq<char> {
    match k {
        ObjectKind::Table => "TABLE"@,
        ObjectKind::Index => "INDEX"@,
    }
}

/// The SQL text of one guarded creation.
pub open spec fn statement_text(o: SchemaObject) -> Seq<char> {
    "CREATE "@ + kind_keyword(o.kind) + " IF NOT EXISTS "@ + o.name@ + " "@ + o.definition@ + ";\n"@
}

/// The statements of `objs`, in order, as one SQL batch.
pub open spec fn script_text(objs: Seq<SchemaObject>) -> Seq<char>
    decreases objs.len(),
{
    if objs.len() == 0 {
        Seq::empty()
    } else {
        script_text(objs.drop_last()) + statement_text(objs.last())
    }
}

/// A guarded creation adds its object unless the name is already taken, and
/// never fails.
pub open spec fn apply_object(c: Catalog, o: SchemaObject) -> Catalog {
    if c.contains_key(o.name@) {
        c
    } else {
        c.insert(o.name@, o.kind)
    }
}

/// The catalog after running the statements of `objs` in order.
pub open spec fn apply_objects(c: Catalog, objs: Seq<SchemaObject>) -> Catalog
    decreases objs.len(),
{
    if objs.len() == 0 {
        c
    } else {
        apply_object(apply_objects(c, objs.drop_last()), objs.last())
    }
}

/// Running a batch keeps every object already in the catalog, and leaves
/// every object of the batch in it.
pub proof fn lemma_apply_objects_covers(c: Catalog, objs: Seq<SchemaObject>)
    ensures
        forall|k: Seq<char>| c.contains_key(k) ==> #[trigger] apply_objects(c, objs).contains_key(k)
            && apply_objects(c, objs)[k] == c[k],
        forall|i: int| 0 <= i < objs.len() ==> apply_objects(c, objs).contains_key(#[trigger] objs[i].name@),
    decreases objs.len(),
{
    if objs.len() > 0 {
        let front = objs.drop_last();
        lemma_apply_objects_covers(c, front);
        assert forall|k: Seq<char>| c.contains_key(k) implies #[trigger] apply_objects(c, objs).contains_key(k)
            && apply_objects(c, objs)[k] == c[k] by {
            assert(apply_objects(c, front).contains_key(k));
        }
        assert forall|i: int| 0 <= i < objs.len() implies apply_objects(c, objs).contains_key(
            #[trigger] objs[i].name@,
        ) by {
            if i < objs.len() - 1 {
                assert(front[i] == objs[i]);
            }
        }
    }
}

/// A batch whose names are all taken leaves the catalog as it is.
pub proof fn lemma_apply_objects_present(c: Catalog, objs: Seq<SchemaObject>)
    requires
        forall|i: int| 0 <= i < objs.len() ==> c.contains_key(#[trigger] objs[i].name@),
    ensures
        apply_objects(c, objs) == c,
    decreases objs.len(),
{
    if objs.len() > 0 {
        let front = objs.drop_last();
        assert forall|i: int| 0 <= i < front.len() implies c.contains_key(#[trigger] front[i].name@) by {
            assert(front[i] == objs[i]);
        }
        lemma_apply_objects_present(c, front);
        assert(c.contains_key(objs[objs.len() - 1].name@));
    }
}

/// Running a batch of guarded creations a second time changes nothing: the
/// catalog after two runs is the catalog after one.
pub proof fn lemma_apply_objects_idempotent(c: Catalog, objs: Seq<SchemaObject>)
    ensures
        apply_objects(apply_objects(c, objs), objs) == apply_objects(c, objs),
{
    lemma_apply_objects_covers(c, objs);
    lemma_apply_objects_present(apply_objects(c, objs), objs);
}

fn kind_word(k: ObjectKind) -> (r: &'static str)
    ensures
        r@ == kind_keyword(k),
{
    match k {
        ObjectKind::Table => "TABLE",
        ObjectKind::Index => "INDEX",
    }
}

/// The SQL text of `o`.
pub fn statement_sql(o: &SchemaObject) -> (r: String)
    ensures
        r@ == statement_text(*o),
{
    let mut r = String::from_str("CREATE ");
    r.append(kind_word(o.kind));
    r.append(" IF NOT EXISTS ");
    r.append(o.name);
    r.append(" ");
    r.append(o.definition);
    r.append(";\n");
    r
}

/// The SQL batch that creates `objs` in order.
pub fn script_sql(objs: &Vec<SchemaObject>) -> (r: String)
    ensures
        r@ == script_text(objs@),
{
    let mut r = String::new();
    let mut i: usize = 0;
    while i < objs.len()
        invariant
            i <= objs@.len(),
            r@ == script_text(objs@.take(i as int)),
        decreases objs@.len() - i,
    {
        let s = statement_sql(&objs[i]);
        r.append(s.as_str());
        proof {
            assert(objs@.take(i as int + 1).drop_last() =~= objs@.take(i as int));
        }
        i = i + 1;
    }
    proof {
        assert(objs@.take(objs@.len() as int) =~= objs@);
    }
    r
}

} // verus!
