use vstd::prelude::*;

verus! {

/// One binding of a label name.
#[derive(Debug, Clone)]
pub struct LabelEntry {
    pub name: String,
    pub label: String,
}

/// The map of names to labels that a binding log stands for; later bindings win.
pub open spec fn entries_map(es: Seq<LabelEntry>) -> Map<Seq<char>, Seq<char>>
    decreases es.len(),
{
    if es.len() == 0 {
        Map::empty()
    } else {
        entries_map(es.drop_last()).insert(es.last().name@, es.last().label@)
    }
}

/// The code generator's environment: the label chosen for each name.
#[derive(Debug, Clone)]
pub struct Environement {
    labels: Vec<LabelEntry>,
}

impl View for Environement {
    type V = Map<Seq<char>, Seq<char>>;

    closed spec fn view(&self) -> Map<Seq<char>, Seq<char>> {
        entries_map(self.labels@)
    }
}

impl Environement {
    pub fn new() -> (r: Self)
        ensures
            r@ == Map::<Seq<char>, Seq<char>>::empty(),
    {
        Self { labels: Vec::new() }
    }

    /// Binds `name` to `label`, in place of any earlier binding.
    pub fn add_label(&mut self, name: String, label: String)
        ensures
            final(self)@ == old(self)@.insert(name@, label@),
    {
        let ghost before = self.labels@;
        self.labels.push(LabelEntry { name, label });
        proof {
            assert(self.labels@.drop_last() =~= before);
        }
    }

    /// The label bound to `name`.
    pub fn get_label(&self, name: &String) -> (r: Option<&String>)
        ensures
            r is Some <==> self@.contains_key(name@),
            r is Some ==> r->0@ == self@[name@],
    {
        let ghost full = self.labels@;
        let mut i = self.labels.len();
        proof {
            assert(full.take(i as int) =~= full);
        }
        while i > 0
            invariant
                i <= full.len(),
                full == self.labels@,
                entries_map(full).contains_key(name@) <==> entries_map(full.take(i as int)).contains_key(name@),
                entries_map(full.take(i as int)).contains_key(name@) ==> entries_map(full)[name@] == entries_map(full.take(i as int))[name@],
            decreases i,
        {
            proof {
                assert(full.take(i as int).drop_last() =~= full.take(i - 1));
            }
            i = i - 1;
            if self.labels[i].name == *name {
                return Some(&self.labels[i].label);
            }
        }
        None
    }
}

} // verus!
