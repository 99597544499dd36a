//! Category naming: turns a run's category and variable choices into the
//! display name shown in the channel.
//!
//! The repository holds the game's categories (with their variables) and a
//! table of aliases that rename a category to something nicer.  Lookups give
//! the latest entry for a key, so a repeated key behaves like a map that was
//! filled in order.

use vstd::prelude::*;

use crate::src::{Category, SRCRun, Variable};
use crate::utils::str_eq;

verus! {

/// A stored alias: a nicer display name for one category of one game.
#[derive(Debug, Clone)]
pub struct CategoryAlias {
    pub id: i64,
    pub game_src_id: String,
    pub category_src_id: String,
    pub alias: String,
}

/// The latest value stored under a key, if any.
pub open spec fn last_assoc<T>(s: Seq<(String, T)>, key: Seq<char>) -> Option<T>
    decreases s.len(),
{
    if s.len() == 0 {
        None
    } else if s.last().0@ == key {
        Some(s.last().1)
    } else {
        last_assoc(s.drop_last(), key)
    }
}

/// The latest category with the given id, if any.
pub open spec fn last_category(s: Seq<Category>, id: Seq<char>) -> Option<Category>
    decreases s.len(),
{
    if s.len() == 0 {
        None
    } else if s.last().id@ == id {
        Some(s.last())
    } else {
        last_category(s.drop_last(), id)
    }
}

/// Looks a key up in an association list, latest entry winning.
pub fn assoc_last<'a, T>(v: &'a Vec<(String, T)>, key: &str) -> (r: Option<&'a T>)
    ensures
        match r {
            Some(t) => last_assoc(v@, key@) == Some(*t),
            None => last_assoc(v@, key@) is None,
        },
{
    let mut i = v.len();
    proof {
        assert(v@.subrange(0, v@.len() as int) =~= v@);
    }
    while i > 0
        invariant
            i <= v@.len(),
            last_assoc(v@, key@) == last_assoc(v@.subrange(0, i as int), key@),
        decreases i,
    {
        i = i - 1;
        proof {
            assert(v@.subrange(0, i + 1 as int).drop_last() =~= v@.subrange(0, i as int));
            assert(v@.subrange(0, i + 1 as int).last() == v@[i as int]);
        }
        if str_eq(v[i].0.as_str(), key) {
            return Some(&v[i].1);
        }
    }
    proof {
        assert(v@.subrange(0, 0) =~= Seq::<(String, T)>::empty());
    }
    None
}

/// The first subcategory variable of a category, if any: the one whose value
/// names the run's true category.
pub open spec fn spec_first_subcat_var(vars: Seq<Variable>) -> Option<Variable>
    decreases vars.len(),
{
    if vars.len() == 0 {
        None
    } else if vars[0].is_subcategory {
        Some(vars[0])
    } else {
        spec_first_subcat_var(vars.drop_first())
    }
}

/// The subcategory label a run's choices select for a category, if the
/// category has a subcategory variable, the run chose a value for it, and
/// that value exists.
pub open spec fn spec_subcategory_label(cat: Category, values: Seq<(String, String)>) -> Option<
    Seq<char>,
> {
    match spec_first_subcat_var(cat.variables@) {
        None => None,
        Some(var) => match last_assoc(values, var.id@) {
            None => None,
            Some(value_id) => match last_assoc(var.values.values@, value_id@) {
                None => None,
                Some(v) => Some(v.label@),
            },
        },
    }
}

/// The display name kept for categories, with aliases applied.
pub struct CategoriesRepository {
    /// The game's categories, as fetched.
    pub categories: Vec<Category>,
    /// Alias table: category id to nicer name.
    pub aliases: Vec<(String, String)>,
}

/// The nicer name of a category: its alias when one is stored, its own name
/// otherwise.
pub open spec fn spec_nice_name(repo: CategoriesRepository, cat: Category) -> Seq<char> {
    match last_assoc(repo.aliases@, cat.id@) {
        Some(alias) => alias@,
        None => cat.name@,
    }
}

/// The display name for a category id and a run's variable choices: the
/// subcategory label first when there is one, then the category's nicer
/// name.
pub open spec fn spec_category_name(
    repo: CategoriesRepository,
    id: Seq<char>,
    values: Seq<(String, String)>,
) -> Option<Seq<char>> {
    match last_category(repo.categories@, id) {
        None => None,
        Some(cat) => match spec_subcategory_label(cat, values) {
            Some(sub) => Some(sub + " "@ + spec_nice_name(repo, cat)),
            None => Some(spec_nice_name(repo, cat)),
        },
    }
}

impl CategoriesRepository {
    /// Builds the repository from fetched categories and stored aliases.
    pub fn new(categories: Vec<Category>, aliases: Vec<CategoryAlias>) -> (r: CategoriesRepository)
        ensures
            r.categories == categories,
            r.aliases@.len() == aliases@.len(),
            forall|i: int|
                0 <= i < aliases@.len() ==> #[trigger] r.aliases@[i] == (
                aliases@[i].category_src_id,
                aliases@[i].alias,
            ),
    {
        let mut pairs: Vec<(String, String)> = Vec::new();
        let mut i: usize = 0;
        while i < aliases.len()
            invariant
                i <= aliases@.len(),
                pairs@.len() == i,
                forall|k: int|
                    0 <= k < i ==> #[trigger] pairs@[k] == (
                    aliases@[k].category_src_id,
                    aliases@[k].alias,
                ),
            decreases aliases@.len() - i,
        {
            let a = &aliases[i];
            pairs.push((a.category_src_id.clone(), a.alias.clone()));
            i += 1;
        }
        CategoriesRepository { categories, aliases: pairs }
    }

    /// The nicer name of a category: its stored alias, or its own name.
    pub fn _category_nice_name(&self, category: &Category) -> (r: String)
        ensures
            r@ == spec_nice_name(*self, *category),
    {
        match assoc_last(&self.aliases, category.id.as_str()) {
            Some(alias) => alias.clone(),
            None => category.name.clone(),
        }
    }

    /// The latest category with the given id.
    fn find_category(&self, id: &str) -> (r: Option<&Category>)
        ensures
            match r {
                Some(c) => last_category(self.categories@, id@) == Some(*c),
                None => last_category(self.categories@, id@) is None,
            },
    {
        let mut i = self.categories.len();
        proof {
            assert(self.categories@.subrange(0, self.categories@.len() as int)
                =~= self.categories@);
        }
        while i > 0
            invariant
                i <= self.categories@.len(),
                last_category(self.categories@, id@) == last_category(
                    self.categories@.subrange(0, i as int),
                    id@,
                ),
            decreases i,
        {
            i = i - 1;
            proof {
                assert(self.categories@.subrange(0, i + 1 as int).drop_last()
                    =~= self.categories@.subrange(0, i as int));
                assert(self.categories@.subrange(0, i + 1 as int).last()
                    == self.categories@[i as int]);
            }
            if str_eq(self.categories[i].id.as_str(), id) {
                return Some(&self.categories[i]);
            }
        }
        proof {
            assert(self.categories@.subrange(0, 0) =~= Seq::<Category>::empty());
        }
        None
    }

    /// The subcategory label the run's choices select for this category.
    pub fn subcategory_name(&self, category: &Category, values: &Vec<(String, String)>) -> (r:
        Option<String>)
        ensures
            match r {
                Some(s) => spec_subcategory_label(*category, values@) == Some(s@),
                None => spec_subcategory_label(*category, values@) is None,
            },
    {
        let mut i: usize = 0;
        proof {
            assert(category.variables@.subrange(0, category.variables@.len() as int)
                =~= category.variables@);
        }
        while i < category.variables.len()
            invariant
                i <= category.variables@.len(),
                spec_first_subcat_var(category.variables@) == spec_first_subcat_var(
                    category.variables@.subrange(i as int, category.variables@.len() as int),
                ),
                forall|k: int|
                    0 <= k < i ==> !(#[trigger] category.variables@[k]).is_subcategory,
            decreases category.variables@.len() - i,
        {
            let var = &category.variables[i];
            proof {
                let suffix = category.variables@.subrange(
                    i as int,
                    category.variables@.len() as int,
                );
                assert(suffix[0] == category.variables@[i as int]);
                assert(suffix.drop_first() =~= category.variables@.subrange(
                    i + 1 as int,
                    category.variables@.len() as int,
                ));
            }
            if var.is_subcategory {
                let value_id = match assoc_last(values, var.id.as_str()) {
                    Some(v) => v,
                    None => {
                        return None;
                    },
                };
                let value = match assoc_last(&var.values.values, value_id.as_str()) {
                    Some(v) => v,
                    None => {
                        return None;
                    },
                };
                return Some(value.label.clone());
            }
            i += 1;
        }
        proof {
            assert(category.variables@.subrange(
                category.variables@.len() as int,
                category.variables@.len() as int,
            ) =~= Seq::<Variable>::empty());
        }
        None
    }

    /// The display name for a category id and a run's variable choices.  The
    /// subcategory label is put first: it names the run's true category, the
    /// category itself being the ruleset.
    pub fn category_name(&self, category_id: &str, values: &Vec<(String, String)>) -> (r: Option<
        String,
    >)
        ensures
            match r {
                Some(s) => spec_category_name(*self, category_id@, values@) == Some(s@),
                None => spec_category_name(*self, category_id@, values@) is None,
            },
    {
        let cat = match self.find_category(category_id) {
            Some(c) => c,
            None => {
                return None;
            },
        };
        let cat_name = self._category_nice_name(cat);
        match self.subcategory_name(cat, values) {
            Some(sub) => {
                let mut out = sub;
                out.append(" ");
                out.append(cat_name.as_str());
                proof {
                    assert(out@ =~= spec_category_name(*self, category_id@, values@).unwrap());
                }
                Some(out)
            },
            None => Some(cat_name),
        }
    }

    /// The display name for a run: its category id and variable choices,
    /// resolved against the repository.
    pub fn category_name_from_run(&self, run: &SRCRun) -> (r: Option<String>)
        ensures
            match r {
                Some(s) => spec_category_name(*self, run.category@, run.values@) == Some(s@),
                None => spec_category_name(*self, run.category@, run.values@) is None,
            },
    {
        self.category_name(run.category.as_str(), &run.values)
    }
}

} // verus!
