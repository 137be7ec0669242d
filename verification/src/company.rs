use vstd::prelude::*;
use crate::text::str_equals;

verus! {

/// Why a command line was refused.
#[derive(Clone, Copy, Debug, PartialEq, Eq, Structural)]
pub enum CommandError {
    /// Fewer than four words.
    TooShort,
    /// The first word is not `Add`.
    BadVerb,
    /// The third word is not `to`.
    BadParticle,
}

/// An accepted command `Add <name> to <department>`.
pub struct AddCommand {
    pub name: String,
    pub department: String,
}

/// Reads a command from its whitespace-separated words: `Add <name> to
/// <department>`; words after the fourth are ignored.
pub fn parse_command(words: &Vec<String>) -> (r: Result<AddCommand, CommandError>)
    ensures
        words.len() < 4 ==> r matches Err(CommandError::TooShort),
        words.len() >= 4 && words@[0]@ != "Add"@ ==> r matches Err(CommandError::BadVerb),
        words.len() >= 4 && words@[0]@ == "Add"@ && words@[2]@ != "to"@ ==> r matches Err(
            CommandError::BadParticle,
        ),
        words.len() >= 4 && words@[0]@ == "Add"@ && words@[2]@ == "to"@ ==> (r matches Ok(c)
            && c.name@ == words@[1]@ && c.department@ == words@[3]@),
{
    if words.len() < 4 {
        return Err(CommandError::TooShort);
    }
    if !str_equals(words[0].as_str(), "Add") {
        return Err(CommandError::BadVerb);
    }
    if !str_equals(words[2].as_str(), "to") {
        return Err(CommandError::BadParticle);
    }
    let name = words[1].clone();
    let department = words[3].clone();
    Ok(AddCommand { name, department })
}

/// The texts of a list of strings.
pub open spec fn texts(v: Seq<String>) -> Seq<Seq<char>> {
    v.map_values(|s: String| s@)
}

/// The staff table after `name` joins `department`: the name is added at the
/// end of that department's list, which is created if it is new.
pub open spec fn with_employee(
    table: Map<Seq<char>, Seq<Seq<char>>>,
    department: Seq<char>,
    name: Seq<char>,
) -> Map<Seq<char>, Seq<Seq<char>>> {
    let staff = if table.contains_key(department) {
        table[department]
    } else {
        Seq::empty()
    };
    table.insert(department, staff.push(name))
}

/// The staff of a company, department by department, each department's
/// employees in the order they were added.
pub struct Company {
    departments: Vec<String>,
    employees: Vec<Vec<String>>,
}

impl Company {
    /// The position of `department` in the list of departments.
    closed spec fn index_of(&self, department: Seq<char>) -> int {
        choose|i: int| 0 <= i < self.departments.len() && self.departments@[i]@ == department
    }

    /// The company is well formed: one staff list per department, and no
    /// department listed twice.
    pub closed spec fn wf(&self) -> bool {
        &&& self.departments.len() == self.employees.len()
        &&& forall|i: int, j: int|
            0 <= i < j < self.departments.len() ==> self.departments@[i]@
                != self.departments@[j]@
    }

    /// The staff table: each department's name mapped to the names of its
    /// employees, in order.
    pub closed spec fn table(&self) -> Map<Seq<char>, Seq<Seq<char>>> {
        Map::new(
            |d: Seq<char>| exists|i: int| 0 <= i < self.departments.len() && self.departments@[i]@ == d,
            |d: Seq<char>| texts(self.employees@[self.index_of(d)]@),
        )
    }

    /// A company with no departments.
    pub fn new() -> (c: Company)
        ensures
            c.wf(),
            c.table() == Map::<Seq<char>, Seq<Seq<char>>>::empty(),
    {
        let c = Company { departments: Vec::new(), employees: Vec::new() };
        assert(c.table() =~= Map::<Seq<char>, Seq<Seq<char>>>::empty());
        c
    }

    /// Adds `name` at the end of the staff of `department`, creating the
    /// department if it is new.
    pub fn add_employee(&mut self, department: String, name: String)
        requires
            old(self).wf(),
        ensures
            final(self).wf(),
            final(self).table() == with_employee(old(self).table(), department@, name@),
    {
        let ghost old_self = *self;
        let n = self.departments.len();
        let mut i: usize = 0;
        while i < n
            invariant
                *self == old_self,
                n == self.departments.len(),
                i <= n,
                forall|k: int| 0 <= k < i ==> self.departments@[k]@ != department@,
            ensures
                i <= n,
                forall|k: int| 0 <= k < i ==> self.departments@[k]@ != department@,
                i < n ==> self.departments@[i as int]@ == department@,
            decreases n - i,
        {
            if self.departments[i] == department {
                break;
            }
            i = i + 1;
        }
        if i < n {
            let mut staff = self.employees.remove(i);
            staff.push(name);
            self.employees.insert(i, staff);
            proof {
                assert(self.departments@[i as int]@ == department@);
                assert(old_self.table().contains_key(department@));
                assert(old_self.index_of(department@) == i);
                assert forall|d: Seq<char>| #[trigger] self.table().contains_key(d) implies self.index_of(d) == old_self.index_of(d) by {
                    let j = self.index_of(d);
                    let k = old_self.index_of(d);
                    assert(self.departments@[j]@ == d);
                    assert(old_self.departments@[k]@ == d);
                }
                assert(texts(self.employees@[i as int]@) =~= texts(old_self.employees@[i as int]@).push(name@));
                assert(self.table() =~= with_employee(old_self.table(), department@, name@));
            }
        } else {
            let mut staff: Vec<String> = Vec::new();
            staff.push(name);
            self.departments.push(department);
            self.employees.push(staff);
            proof {
                assert(!old_self.table().contains_key(department@));
                assert(self.departments@[n as int]@ == department@);
                assert(self.index_of(department@) == n);
                assert forall|d: Seq<char>| #[trigger] old_self.table().contains_key(d) implies self.index_of(d) == old_self.index_of(d) by {
                    let j = self.index_of(d);
                    let k = old_self.index_of(d);
                    assert(self.departments@[k]@ == d);
                    assert(self.departments@[j]@ == d);
                }
                assert(texts(self.employees@[n as int]@) =~= seq![name@]);
                let expected = with_employee(old_self.table(), department@, name@);
                assert forall|d: Seq<char>| #[trigger] self.table().contains_key(d) <==> expected.contains_key(d) by {
                    if self.table().contains_key(d) && d != department@ {
                        let j = self.index_of(d);
                        assert(j < n);
                        assert(old_self.departments@[j]@ == d);
                    }
                    if old_self.table().contains_key(d) {
                        let k = old_self.index_of(d);
                        assert(self.departments@[k]@ == d);
                    }
                }
                assert forall|d: Seq<char>| #[trigger] self.table().contains_key(d) implies self.table()[d] == expected[d] by {
                    if d != department@ {
                        assert(old_self.table().contains_key(d));
                        assert(self.index_of(d) == old_self.index_of(d));
                        assert(self.index_of(d) < n);
                    }
                }
                assert(self.table() =~= expected);
            }
        }
    }

    /// The names of the departments, in the order they were created.
    pub fn department_names(&self) -> (r: &Vec<String>)
        requires
            self.wf(),
        ensures
            forall|i: int, j: int| 0 <= i < j < r.len() ==> r@[i]@ != r@[j]@,
            forall|i: int| 0 <= i < r.len() ==> self.table().contains_key(#[trigger] r@[i]@),
            forall|d: Seq<char>| #[trigger] self.table().contains_key(d) ==> exists|i: int| 0 <= i < r.len() && r@[i]@ == d,
    {
        &self.departments
    }

    /// The staff of `department`, if the company has that department.
    pub fn staff_of(&self, department: &String) -> (r: Option<&Vec<String>>)
        requires
            self.wf(),
        ensures
            r is Some <==> self.table().contains_key(department@),
            r matches Some(v) ==> texts(v@) == self.table()[department@],
    {
        let n = self.departments.len();
        let mut i: usize = 0;
        while i < n
            invariant
                self.wf(),
                n == self.departments.len(),
                n == self.employees.len(),
                i <= n,
                forall|k: int| 0 <= k < i ==> self.departments@[k]@ != department@,
            decreases n - i,
        {
            if self.departments[i] == *department {
                proof {
                    assert(self.table().contains_key(department@));
                    let j = self.index_of(department@);
                    assert(self.departments@[j]@ == department@);
                }
                return Some(&self.employees[i]);
            }
            i = i + 1;
        }
        None
    }
}

/// Adding an employee is seen by a later read of the same department, which
/// ends with the new name after the names it had before, and by no read of
/// any other department.
pub proof fn lemma_read_after_add(
    table: Map<Seq<char>, Seq<Seq<char>>>,
    department: Seq<char>,
    name: Seq<char>,
    other: Seq<char>,
)
    requires
        other != department,
    ensures
        with_employee(table, department, name).contains_key(department),
        with_employee(table, department, name)[department].last() == name,
        table.contains_key(department) ==> with_employee(table, department, name)[department].drop_last()
            == table[department],
        with_employee(table, department, name).contains_key(other) == table.contains_key(other),
        table.contains_key(other) ==> with_employee(table, department, name)[other] == table[other],
{
    if table.contains_key(department) {
        assert(table[department].push(name).drop_last() =~= table[department]);
    }
}

} // verus!
