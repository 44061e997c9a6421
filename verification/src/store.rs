//! The compensation store: a key-value mapping from employee name to salary.
//!
//! The abstract state of a store is a `StoreView`; what each operation does
//! to that state is written once, as a step function, and the `DBClient`
//! trait obliges every implementation to behave as those steps. `MemStore`
//! is the verified in-memory implementation. Each step takes the state to
//! the next state in one piece, so a caller holding the store exclusively
//! observes every read-modify-write — in particular the raise — as a single
//! atomic transition.

use vstd::prelude::*;

use crate::errors::OpError;
use crate::models::{
    raise_fits, raised, valid_name, valid_percentage, valid_salary, EmployeeData, EmployeeName,
    EmployeeSalary, SalaryMultiplier,
};

verus! {

/// The abstract state of a compensation store: whether the schema has been
/// initialized, and the mapping from employee name to salary.
pub struct StoreView {
    pub schema_ready: bool,
    pub contents: Map<Seq<char>, int>,
}

/// Every record the store holds is well formed: its key is a valid name and
/// its salary is strictly positive.
pub open spec fn view_wf(s: StoreView) -> bool {
    forall|k: Seq<char>| #[trigger] s.contents.contains_key(k) ==> valid_name(k) && valid_salary(
        s.contents[k],
    )
}

/// Schema initialization without clearing: the schema exists afterwards and
/// every record is kept.
pub open spec fn init_step(s: StoreView) -> StoreView {
    StoreView { schema_ready: true, contents: s.contents }
}

/// Schema initialization that clears: the schema exists afterwards and holds
/// no records.
pub open spec fn init_clear_step(s: StoreView) -> StoreView {
    StoreView { schema_ready: true, contents: Map::empty() }
}

/// What a salary lookup returns: the stored salary on an exact,
/// case-sensitive match of the name, `NotFound` otherwise, and
/// `StorageUnavailable` when the schema was never initialized.
pub open spec fn get_step(s: StoreView, name: Seq<char>) -> Result<int, OpError> {
    if !s.schema_ready {
        Err(OpError::StorageUnavailable)
    } else if s.contents.contains_key(name) {
        Ok(s.contents[name])
    } else {
        Err(OpError::NotFound)
    }
}

/// What adding an employee does: a new record appears under the name, a
/// duplicate name is rejected with `Conflict` and changes nothing, and an
/// uninitialized schema answers `StorageUnavailable`.
pub open spec fn add_step(s: StoreView, name: Seq<char>, salary: int) -> (StoreView, Result<
    (),
    OpError,
>) {
    if !s.schema_ready {
        (s, Err(OpError::StorageUnavailable))
    } else if s.contents.contains_key(name) {
        (s, Err(OpError::Conflict))
    } else {
        (StoreView { schema_ready: true, contents: s.contents.insert(name, salary) }, Ok(()))
    }
}

/// The atomic read-modify-write raise: in one step the named salary is read,
/// raised by the percentage and written back, and the pre-raise value is
/// returned. A missing name answers `NotFound`, arithmetic that would leave
/// the `i32` range answers `Overflow`, and an uninitialized schema answers
/// `StorageUnavailable`; in every failure the state is left untouched.
pub open spec fn increase_step(s: StoreView, name: Seq<char>, percentage: int) -> (StoreView, Result<
    int,
    OpError,
>) {
    if !s.schema_ready {
        (s, Err(OpError::StorageUnavailable))
    } else if !s.contents.contains_key(name) {
        (s, Err(OpError::NotFound))
    } else if raise_fits(s.contents[name], percentage) {
        (
            StoreView {
                schema_ready: true,
                contents: s.contents.insert(name, raised(s.contents[name], percentage)),
            },
            Ok(s.contents[name]),
        )
    } else {
        (s, Err(OpError::Overflow))
    }
}

/// A salary result reduced to the mathematical value it carries.
pub open spec fn salary_result_view(r: Result<EmployeeSalary, OpError>) -> Result<int, OpError> {
    match r {
        Ok(s) => Ok(s.amount as int),
        Err(e) => Err(e),
    }
}

/// A compensation store. Every implementation must make each operation
/// behave as the corresponding step function on its abstract state, so that
/// callers can reason about the store without knowing how it persists the
/// records.
pub trait DBClient: Sized {
    /// The abstract state of the store.
    spec fn state(&self) -> StoreView;

    /// The implementation's internal invariant.
    spec fn inv(&self) -> bool;

    /// Idempotent schema initialization: afterwards the schema exists and
    /// every record is kept.
    fn init_db(&mut self) -> (r: Result<(), OpError>)
        requires
            old(self).inv(),
        ensures
            final(self).inv(),
            final(self).state() == init_step(old(self).state()),
            r == Ok::<(), OpError>(()),
    ;

    /// Schema initialization that also deletes every record; meant for test
    /// and setup paths, never for the serving path.
    fn init_db_clear(&mut self) -> (r: Result<(), OpError>)
        requires
            old(self).inv(),
        ensures
            final(self).inv(),
            final(self).state() == init_clear_step(old(self).state()),
            r == Ok::<(), OpError>(()),
    ;

    /// Look the salary of the named employee up, by exact match.
    fn get_employee_salary(&self, data: EmployeeName) -> (r: Result<EmployeeSalary, OpError>)
        requires
            self.inv(),
            data.wf(),
        ensures
            salary_result_view(r) == get_step(self.state(), data.name@),
            (r matches Ok(s) ==> s.wf()),
    ;

    /// Add a new employee record; a duplicate name is rejected.
    fn add_new_employee(&mut self, data: EmployeeData) -> (r: Result<(), OpError>)
        requires
            old(self).inv(),
            data.wf(),
        ensures
            final(self).inv(),
            final(self).state() == add_step(old(self).state(), data.name@, data.salary as int).0,
            r == add_step(old(self).state(), data.name@, data.salary as int).1,
    ;

    /// Raise the named employee's salary by the percentage, atomically, and
    /// return the pre-raise salary.
    fn increase_employee_salary(&mut self, data: SalaryMultiplier) -> (r: Result<
        EmployeeSalary,
        OpError,
    >)
        requires
            old(self).inv(),
            data.wf(),
        ensures
            final(self).inv(),
            final(self).state() == increase_step(
                old(self).state(),
                data.name@,
                data.percentage as int,
            ).0,
            salary_result_view(r) == increase_step(
                old(self).state(),
                data.name@,
                data.percentage as int,
            ).1,
            (r matches Ok(s) ==> s.wf()),
    ;
}

/// No two records share a name.
pub open spec fn unique_names(rs: Seq<EmployeeData>) -> bool {
    forall|i: int, j: int|
        0 <= i < rs.len() && 0 <= j < rs.len() && i != j ==> rs[i].name@ != rs[j].name@
}

/// Every record is well formed.
pub open spec fn records_wf(rs: Seq<EmployeeData>) -> bool {
    forall|i: int| 0 <= i < rs.len() ==> (#[trigger] rs[i]).wf()
}

/// Whether some record carries the name.
pub open spec fn has_name(rs: Seq<EmployeeData>, k: Seq<char>) -> bool {
    exists|i: int| 0 <= i < rs.len() && rs[i].name@ == k
}

/// The index of the record carrying the name; meaningful only under
/// `has_name` and `unique_names`.
pub open spec fn index_of(rs: Seq<EmployeeData>, k: Seq<char>) -> int {
    choose|i: int| 0 <= i < rs.len() && rs[i].name@ == k
}

/// The mapping from name to salary that a sequence of records induces.
pub open spec fn contents_of(rs: Seq<EmployeeData>) -> Map<Seq<char>, int> {
    Map::new(|k: Seq<char>| has_name(rs, k), |k: Seq<char>| rs[index_of(rs, k)].salary as int)
}

proof fn lemma_found_at(rs: Seq<EmployeeData>, i: int)
    requires
        unique_names(rs),
        0 <= i < rs.len(),
    ensures
        contents_of(rs).contains_key(rs[i].name@),
        contents_of(rs)[rs[i].name@] == rs[i].salary as int,
        index_of(rs, rs[i].name@) == i,
{
    let k = rs[i].name@;
    assert(has_name(rs, k));
    let j = index_of(rs, k);
    assert(0 <= j < rs.len() && rs[j].name@ == k);
    assert(j == i);
}

proof fn lemma_contents_push(rs: Seq<EmployeeData>, d: EmployeeData)
    requires
        unique_names(rs),
        !has_name(rs, d.name@),
    ensures
        unique_names(rs.push(d)),
        contents_of(rs.push(d)) == contents_of(rs).insert(d.name@, d.salary as int),
{
    let rs2 = rs.push(d);
    assert forall|i: int, j: int|
        0 <= i < rs2.len() && 0 <= j < rs2.len() && i != j implies rs2[i].name@
        != rs2[j].name@ by {
        if i < rs.len() && j < rs.len() {
        } else if j == rs.len() {
            assert(rs2[j] == d);
            assert(rs2[i] == rs[i]);
            assert(rs2[i].name@ != d.name@);
        } else {
            assert(rs2[i] == d);
            assert(rs2[j] == rs[j]);
            assert(rs2[j].name@ != d.name@);
        }
    }
    let m1 = contents_of(rs2);
    let m2 = contents_of(rs).insert(d.name@, d.salary as int);
    assert forall|k: Seq<char>| #[trigger] m1.contains_key(k) implies m2.contains_key(k) by {
        let w = choose|i: int| 0 <= i < rs2.len() && rs2[i].name@ == k;
        if w < rs.len() {
            assert(rs[w].name@ == k);
            assert(has_name(rs, k));
        } else {
            assert(k == d.name@);
        }
    }
    assert forall|k: Seq<char>| #[trigger] m2.contains_key(k) implies m1.contains_key(k) by {
        if k == d.name@ {
            assert(rs2[rs.len() as int].name@ == k);
            assert(has_name(rs2, k));
        } else {
            assert(has_name(rs, k));
            let w = choose|i: int| 0 <= i < rs.len() && rs[i].name@ == k;
            assert(rs2[w].name@ == k);
            assert(has_name(rs2, k));
        }
    }
    assert forall|k: Seq<char>| #[trigger] m1.contains_key(k) implies m1[k] == m2[k] by {
        if k == d.name@ {
            lemma_found_at(rs2, rs.len() as int);
            assert(m1[k] == d.salary as int);
        } else {
            assert(has_name(rs, k));
            let w = choose|i: int| 0 <= i < rs.len() && rs[i].name@ == k;
            assert(rs2[w].name@ == k);
            lemma_found_at(rs2, w);
            lemma_found_at(rs, w);
            assert(m1[k] == rs2[w].salary as int);
            assert(m2[k] == rs[w].salary as int);
        }
    }
    assert(m1 =~= m2);
}

proof fn lemma_contents_update(rs: Seq<EmployeeData>, i: int, d: EmployeeData)
    requires
        unique_names(rs),
        0 <= i < rs.len(),
        d.name@ == rs[i].name@,
    ensures
        unique_names(rs.update(i, d)),
        contents_of(rs.update(i, d)) == contents_of(rs).insert(d.name@, d.salary as int),
{
    let rs2 = rs.update(i, d);
    assert forall|x: int, y: int|
        0 <= x < rs2.len() && 0 <= y < rs2.len() && x != y implies rs2[x].name@
        != rs2[y].name@ by {
        assert(rs2[x].name@ == rs[x].name@);
        assert(rs2[y].name@ == rs[y].name@);
    }
    let m1 = contents_of(rs2);
    let m2 = contents_of(rs).insert(d.name@, d.salary as int);
    assert forall|k: Seq<char>| #[trigger] m1.contains_key(k) implies m2.contains_key(k) by {
        let w = choose|x: int| 0 <= x < rs2.len() && rs2[x].name@ == k;
        assert(rs[w].name@ == k);
        assert(has_name(rs, k));
    }
    assert forall|k: Seq<char>| #[trigger] m2.contains_key(k) implies m1.contains_key(k) by {
        if k == d.name@ {
            assert(rs2[i].name@ == k);
            assert(has_name(rs2, k));
        } else {
            let w = choose|x: int| 0 <= x < rs.len() && rs[x].name@ == k;
            assert(rs2[w].name@ == rs[w].name@);
            assert(has_name(rs2, k));
        }
    }
    assert forall|k: Seq<char>| #[trigger] m1.contains_key(k) implies m1[k] == m2[k] by {
        if k == d.name@ {
            lemma_found_at(rs2, i);
            assert(m1[k] == d.salary as int);
        } else {
            let w = choose|x: int| 0 <= x < rs2.len() && rs2[x].name@ == k;
            assert(w != i);
            assert(rs2[w] == rs[w]);
            lemma_found_at(rs2, w);
            lemma_found_at(rs, w);
            assert(m1[k] == rs2[w].salary as int);
            assert(m2[k] == rs[w].salary as int);
        }
    }
    assert(m1 =~= m2);
}

/// The verified in-memory compensation store: the reference implementation
/// of `DBClient`, and the drop-in double for a persistent adapter.
pub struct MemStore {
    schema_ready: bool,
    records: Vec<EmployeeData>,
}

impl MemStore {
    /// A fresh store: the schema is not initialized yet and no record
    /// exists.
    pub fn new() -> (r: MemStore)
        ensures
            r.inv(),
            !r.state().schema_ready,
            r.state().contents == Map::<Seq<char>, int>::empty(),
            view_wf(r.state()),
    {
        let s = MemStore { schema_ready: false, records: Vec::new() };
        proof {
            assert(contents_of(s.records@) =~= Map::<Seq<char>, int>::empty());
        }
        s
    }
}

impl DBClient for MemStore {
    closed spec fn state(&self) -> StoreView {
        StoreView { schema_ready: self.schema_ready, contents: contents_of(self.records@) }
    }

    closed spec fn inv(&self) -> bool {
        unique_names(self.records@) && records_wf(self.records@)
    }

    fn init_db(&mut self) -> (r: Result<(), OpError>) {
        self.schema_ready = true;
        Ok(())
    }

    fn init_db_clear(&mut self) -> (r: Result<(), OpError>) {
        self.schema_ready = true;
        self.records = Vec::new();
        proof {
            assert(contents_of(self.records@) =~= Map::<Seq<char>, int>::empty());
        }
        Ok(())
    }

    #[verifier::loop_isolation(false)]
    fn get_employee_salary(&self, data: EmployeeName) -> (r: Result<EmployeeSalary, OpError>) {
        if !self.schema_ready {
            return Err(OpError::StorageUnavailable);
        }
        let n = self.records.len();
        let mut i: usize = 0;
        while i < n
            invariant
                n == self.records@.len(),
                i <= n,
                unique_names(self.records@),
                records_wf(self.records@),
                forall|j: int| 0 <= j < i ==> self.records@[j].name@ != data.name@,
            decreases n - i,
        {
            if self.records[i].name == data.name {
                proof {
                    lemma_found_at(self.records@, i as int);
                    assert(self.records@[i as int].wf());
                }
                return Ok(EmployeeSalary { amount: self.records[i].salary });
            }
            i = i + 1;
        }
        assert(!has_name(self.records@, data.name@));
        Err(OpError::NotFound)
    }

    #[verifier::loop_isolation(false)]
    fn add_new_employee(&mut self, data: EmployeeData) -> (r: Result<(), OpError>) {
        if !self.schema_ready {
            return Err(OpError::StorageUnavailable);
        }
        let n = self.records.len();
        let mut i: usize = 0;
        while i < n
            invariant
                n == self.records@.len(),
                i <= n,
                unique_names(self.records@),
                records_wf(self.records@),
                forall|j: int| 0 <= j < i ==> self.records@[j].name@ != data.name@,
            decreases n - i,
        {
            if self.records[i].name == data.name {
                proof {
                    lemma_found_at(self.records@, i as int);
                }
                return Err(OpError::Conflict);
            }
            i = i + 1;
        }
        assert(!has_name(self.records@, data.name@));
        let ghost rs = self.records@;
        self.records.push(data);
        proof {
            lemma_contents_push(rs, data);
            assert(records_wf(rs.push(data)));
        }
        Ok(())
    }

    #[verifier::loop_isolation(false)]
    fn increase_employee_salary(&mut self, data: SalaryMultiplier) -> (r: Result<
        EmployeeSalary,
        OpError,
    >) {
        if !self.schema_ready {
            return Err(OpError::StorageUnavailable);
        }
        let n = self.records.len();
        let mut i: usize = 0;
        while i < n
            invariant
                n == self.records@.len(),
                i <= n,
                self.schema_ready == old(self).schema_ready,
                self.records@ == old(self).records@,
                unique_names(self.records@),
                records_wf(self.records@),
                data.wf(),
                forall|j: int| 0 <= j < i ==> self.records@[j].name@ != data.name@,
            decreases n - i,
        {
            if self.records[i].name == data.name {
                proof {
                    lemma_found_at(self.records@, i as int);
                    assert(self.records@[i as int].wf());
                }
                let ghost rs = self.records@;
                let mut salary = EmployeeSalary { amount: self.records[i].salary };
                match salary.increase_by_percentage(&data) {
                    Ok(previous) => {
                        self.records[i].salary = salary.amount;
                        proof {
                            let d = self.records@[i as int];
                            assert(self.records@ == rs.update(i as int, d));
                            assert(d.name@ == rs[i as int].name@);
                            lemma_contents_update(rs, i as int, d);
                            assert(records_wf(rs.update(i as int, d)));
                        }
                        return Ok(previous);
                    },
                    Err(e) => {
                        return Err(e);
                    },
                }
            }
            i = i + 1;
        }
        assert(!has_name(self.records@, data.name@));
        Err(OpError::NotFound)
    }
}

/// Initializing the schema twice in a row produces the same queryable state
/// as initializing it once.
pub proof fn lemma_init_idempotent(s: StoreView)
    ensures
        init_step(init_step(s)) == init_step(s),
{
}

/// Round trip: after a successful insert of an employee, a lookup of the
/// same name returns exactly the inserted salary.
pub proof fn lemma_add_then_get(s: StoreView, name: Seq<char>, salary: int)
    requires
        add_step(s, name, salary).1 is Ok,
    ensures
        get_step(add_step(s, name, salary).0, name) == Ok::<int, OpError>(salary),
{
}

/// Raises on one name serialize. A caller can reach the store only through
/// an exclusive reference, so two raises always run one after the other;
/// this law states that the two steps then compose: the first returns the
/// pre-raise salary, the second returns the salary the first produced, and
/// the final salary is the serial composition of both raises — neither is
/// lost.
pub proof fn lemma_increase_serializes(s: StoreView, name: Seq<char>, p1: int, p2: int)
    requires
        increase_step(s, name, p1).1 is Ok,
        increase_step(increase_step(s, name, p1).0, name, p2).1 is Ok,
    ensures
        increase_step(s, name, p1).1 == Ok::<int, OpError>(s.contents[name]),
        increase_step(increase_step(s, name, p1).0, name, p2).1 == Ok::<int, OpError>(
            raised(s.contents[name], p1),
        ),
        increase_step(increase_step(s, name, p1).0, name, p2).0.contents[name] == raised(
            raised(s.contents[name], p1),
            p2,
        ),
{
}

/// Raises on two different names are independent: run one after the other
/// in either order, the store ends in the same state, so they need no
/// coordination between each other.
pub proof fn lemma_increase_independent(
    s: StoreView,
    n1: Seq<char>,
    n2: Seq<char>,
    p1: int,
    p2: int,
)
    requires
        n1 != n2,
    ensures
        increase_step(increase_step(s, n1, p1).0, n2, p2).0 == increase_step(
            increase_step(s, n2, p2).0,
            n1,
            p1,
        ).0,
{
    let a = increase_step(increase_step(s, n1, p1).0, n2, p2).0;
    let b = increase_step(increase_step(s, n2, p2).0, n1, p1).0;
    assert(a.contents =~= b.contents);
}

/// Adding a well-formed record preserves the store's record invariant.
pub proof fn lemma_add_preserves_wf(s: StoreView, name: Seq<char>, salary: int)
    requires
        view_wf(s),
        valid_name(name),
        valid_salary(salary),
    ensures
        view_wf(add_step(s, name, salary).0),
{
}

/// A raise preserves the store's record invariant: a raised salary is still
/// strictly positive, so an operation that would persist a non-positive
/// salary cannot succeed.
pub proof fn lemma_increase_preserves_wf(s: StoreView, name: Seq<char>, percentage: int)
    requires
        view_wf(s),
        valid_percentage(percentage),
    ensures
        view_wf(increase_step(s, name, percentage).0),
{
    if s.schema_ready && s.contents.contains_key(name) && raise_fits(
        s.contents[name],
        percentage,
    ) {
        let a = s.contents[name];
        assert(a >= 1);
        assert(raised(a, percentage) >= 1) by (nonlinear_arith)
            requires
                a >= 1,
                percentage >= 1,
        ;
    }
}

} // verus!
