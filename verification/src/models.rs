//! Validated value types and the raise arithmetic.
//!
//! Every value arrives from the boundary in an unchecked form and becomes
//! usable by the rest of the crate only through its `check` method, which
//! either returns the checked form or rejects the value with
//! `OpError::InvalidInput`.

use vstd::prelude::*;
use vstd::string::StrSliceExecFns;

use crate::errors::OpError;

verus! {

/// A character of the Unicode `White_Space` set: the characters that
/// trimming a string removes from its ends.
pub open spec fn space_char(c: char) -> bool {
    let n = c as u32;
    n == 0x9 || n == 0xA || n == 0xB || n == 0xC || n == 0xD || n == 0x20 || n == 0x85
        || n == 0xA0 || n == 0x1680 || (0x2000 <= n && n <= 0x200A) || n == 0x2028 || n == 0x2029
        || n == 0x202F || n == 0x205F || n == 0x3000
}

/// A name is valid when it is non-empty after trimming whitespace, that is,
/// when at least one of its characters is not whitespace.
pub open spec fn valid_name(s: Seq<char>) -> bool {
    exists|i: int| 0 <= i < s.len() && !space_char(s[i])
}

/// A salary amount is valid when it is strictly positive.
pub open spec fn valid_salary(amount: int) -> bool {
    amount > 0
}

/// A raise percentage is valid when it is strictly positive.
pub open spec fn valid_percentage(percentage: int) -> bool {
    percentage > 0
}

fn is_space(c: char) -> (r: bool)
    ensures
        r == space_char(c),
{
    let n = c as u32;
    n == 0x9 || n == 0xA || n == 0xB || n == 0xC || n == 0xD || n == 0x20 || n == 0x85
        || n == 0xA0 || n == 0x1680 || (0x2000 <= n && n <= 0x200A) || n == 0x2028 || n == 0x2029
        || n == 0x202F || n == 0x205F || n == 0x3000
}

fn check_name(name: &str) -> (r: Result<(), OpError>)
    ensures
        valid_name(name@) ==> r == Ok::<(), OpError>(()),
        !valid_name(name@) ==> r == Err::<(), OpError>(OpError::InvalidInput),
{
    let len = name.unicode_len();
    let mut i: usize = 0;
    while i < len
        invariant
            len == name@.len(),
            i <= len,
            forall|j: int| 0 <= j < i ==> space_char(name@[j]),
        decreases len - i,
    {
        if !is_space(name.get_char(i)) {
            return Ok(());
        }
        i = i + 1;
    }
    Err(OpError::InvalidInput)
}

fn check_salary(salary: i32) -> (r: Result<(), OpError>)
    ensures
        valid_salary(salary as int) ==> r == Ok::<(), OpError>(()),
        !valid_salary(salary as int) ==> r == Err::<(), OpError>(OpError::InvalidInput),
{
    if salary <= 0 {
        Err(OpError::InvalidInput)
    } else {
        Ok(())
    }
}

fn check_percentage(percentage: i32) -> (r: Result<(), OpError>)
    ensures
        valid_percentage(percentage as int) ==> r == Ok::<(), OpError>(()),
        !valid_percentage(percentage as int) ==> r == Err::<(), OpError>(OpError::InvalidInput),
{
    if percentage <= 0 {
        Err(OpError::InvalidInput)
    } else {
        Ok(())
    }
}

/// An employee name as it arrives from the boundary, carrying no guarantee.
#[derive(Debug, Clone)]
pub struct UncheckedEmployeeName {
    pub name: String,
}

impl UncheckedEmployeeName {
    /// Validation of an incoming name.
    ///
    /// Consumes the raw value and returns the checked form exactly when the
    /// name neither is empty nor consists of whitespace alone.
    pub fn check(self) -> (r: Result<EmployeeName, OpError>)
        ensures
            valid_name(self.name@) ==> (r matches Ok(n) && n.name@ == self.name@ && n.wf()),
            !valid_name(self.name@) ==> r == Err::<EmployeeName, OpError>(OpError::InvalidInput),
    {
        match check_name(self.name.as_str()) {
            Ok(()) => Ok(EmployeeName { name: self.name }),
            Err(e) => Err(e),
        }
    }
}

/// A checked employee name: non-empty after trimming whitespace. It is the
/// unique key of an employee record.
#[derive(Debug, Clone)]
pub struct EmployeeName {
    pub name: String,
}

impl EmployeeName {
    /// The invariant of a checked name.
    pub open spec fn wf(&self) -> bool {
        valid_name(self.name@)
    }
}

/// A salary amount as it arrives from the boundary, carrying no guarantee.
#[derive(Debug, Clone)]
pub struct UncheckedEmployeeSalary {
    pub amount: i32,
}

impl UncheckedEmployeeSalary {
    /// Validation of an incoming salary amount.
    ///
    /// Consumes the raw value and returns the checked form exactly when the
    /// amount is strictly positive.
    pub fn check(self) -> (r: Result<EmployeeSalary, OpError>)
        ensures
            valid_salary(self.amount as int) ==> (r matches Ok(s) && s.amount == self.amount
                && s.wf()),
            !valid_salary(self.amount as int) ==> r == Err::<EmployeeSalary, OpError>(
                OpError::InvalidInput,
            ),
    {
        match check_salary(self.amount) {
            Ok(()) => Ok(EmployeeSalary { amount: self.amount }),
            Err(e) => Err(e),
        }
    }
}

/// A checked salary amount, always strictly positive.
#[derive(Debug, Clone, Copy)]
pub struct EmployeeSalary {
    pub amount: i32,
}

/// The raise amount that a salary gains from a raise by `percentage`
/// percent: the "round up" integer formula
/// `floor((amount * percentage + 99) / 100)`.
pub open spec fn raise_delta(amount: int, percentage: int) -> int {
    (amount * percentage + 99) / 100
}

/// The salary after a raise by `percentage` percent.
pub open spec fn raised(amount: int, percentage: int) -> int {
    amount + raise_delta(amount, percentage)
}

/// Whether every step of the raise computation on `amount` and `percentage`
/// stays inside the `i32` range.
pub open spec fn raise_fits(amount: int, percentage: int) -> bool {
    amount * percentage + 100 <= i32::MAX && raised(amount, percentage) <= i32::MAX
}

impl EmployeeSalary {
    /// The invariant of a checked salary.
    pub open spec fn wf(&self) -> bool {
        valid_salary(self.amount as int)
    }

    /// Raise the salary by a percentage and return the old value.
    ///
    /// The computation follows the truncating integer formula of
    /// `raise_delta` step by step with checked arithmetic: it fails with
    /// `Overflow`, and leaves the salary untouched, exactly when some step
    /// leaves the `i32` range. With a positive salary and a positive
    /// percentage no step can underflow and the new salary stays positive,
    /// so `Underflow` and `InvalidResult` are never returned.
    pub fn increase_by_percentage(&mut self, percent: &SalaryMultiplier) -> (r: Result<
        EmployeeSalary,
        OpError,
    >)
        requires
            old(self).wf(),
            valid_percentage(percent.percentage as int),
        ensures
            raise_fits(old(self).amount as int, percent.percentage as int) ==> (r matches Ok(
                previous,
            ) && previous.amount == old(self).amount && final(self).amount as int == raised(
                old(self).amount as int,
                percent.percentage as int,
            ) && final(self).wf()),
            !raise_fits(old(self).amount as int, percent.percentage as int) ==> r == Err::<
                EmployeeSalary,
                OpError,
            >(OpError::Overflow) && *final(self) == *old(self),
    {
        let ghost a = self.amount as int;
        let ghost p = percent.percentage as int;
        proof {
            assert(a * p >= 1) by (nonlinear_arith)
                requires
                    a >= 1,
                    p >= 1,
            ;
        }
        let old_salary = EmployeeSalary { amount: self.amount };
        let mut addition = old_salary.amount;
        addition = match addition.checked_mul(percent.percentage) {
            Some(v) => v,
            None => {
                return Err(OpError::Overflow);
            },
        };
        addition = match addition.checked_add(100) {
            Some(v) => v,
            None => {
                return Err(OpError::Overflow);
            },
        };
        addition = match addition.checked_sub(1) {
            Some(v) => v,
            None => {
                return Err(OpError::Underflow);
            },
        };
        addition = match addition.checked_div(100) {
            Some(v) => v,
            None => {
                return Err(OpError::Underflow);
            },
        };
        assert(addition as int == raise_delta(a, p));
        assert(addition >= 1) by {
            assert((a * p + 99) / 100 >= 1);
        };
        let new_amount = match self.amount.checked_add(addition) {
            Some(v) => v,
            None => {
                return Err(OpError::Overflow);
            },
        };
        if new_amount <= 0 {
            return Err(OpError::InvalidResult);
        }
        self.amount = new_amount;
        Ok(old_salary)
    }
}

/// Employee data (name and starting salary) as it arrives from the boundary,
/// carrying no guarantee.
#[derive(Debug, Clone)]
pub struct UncheckedEmployeeData {
    pub name: String,
    pub salary: i32,
}

impl UncheckedEmployeeData {
    /// Validation of incoming employee data: the name is checked first, the
    /// salary second, and the first violated condition is reported.
    pub fn check(self) -> (r: Result<EmployeeData, OpError>)
        ensures
            valid_name(self.name@) && valid_salary(self.salary as int) ==> (r matches Ok(d)
                && d.name@ == self.name@ && d.salary == self.salary && d.wf()),
            !(valid_name(self.name@) && valid_salary(self.salary as int)) ==> r == Err::<
                EmployeeData,
                OpError,
            >(OpError::InvalidInput),
    {
        match check_name(self.name.as_str()) {
            Ok(()) => {},
            Err(e) => {
                return Err(e);
            },
        }
        match check_salary(self.salary) {
            Ok(()) => {},
            Err(e) => {
                return Err(e);
            },
        }
        Ok(EmployeeData { name: self.name, salary: self.salary })
    }
}

/// Checked employee data: a valid name and a strictly positive salary.
#[derive(Debug, Clone)]
pub struct EmployeeData {
    pub name: String,
    pub salary: i32,
}

impl EmployeeData {
    /// The invariant of checked employee data.
    pub open spec fn wf(&self) -> bool {
        valid_name(self.name@) && valid_salary(self.salary as int)
    }
}

/// A raise request (employee name and percentage) as it arrives from the
/// boundary, carrying no guarantee.
#[derive(Debug, Clone)]
pub struct UncheckedSalaryMultiplier {
    pub name: String,
    pub percentage: i32,
}

impl UncheckedSalaryMultiplier {
    /// Validation of an incoming raise request: the name is checked first,
    /// the percentage second, and the first violated condition is reported.
    pub fn check(self) -> (r: Result<SalaryMultiplier, OpError>)
        ensures
            valid_name(self.name@) && valid_percentage(self.percentage as int) ==> (r matches Ok(m)
                && m.name@ == self.name@ && m.percentage == self.percentage && m.wf()),
            !(valid_name(self.name@) && valid_percentage(self.percentage as int)) ==> r == Err::<
                SalaryMultiplier,
                OpError,
            >(OpError::InvalidInput),
    {
        match check_name(self.name.as_str()) {
            Ok(()) => {},
            Err(e) => {
                return Err(e);
            },
        }
        match check_percentage(self.percentage) {
            Ok(()) => {},
            Err(e) => {
                return Err(e);
            },
        }
        Ok(SalaryMultiplier { percentage: self.percentage, name: self.name })
    }
}

/// A checked raise request: raise the salary of the named employee by the
/// given percentage. The name is valid and the percentage strictly positive.
#[derive(Debug, Clone)]
pub struct SalaryMultiplier {
    pub name: String,
    pub percentage: i32,
}

impl SalaryMultiplier {
    /// The invariant of a checked raise request.
    pub open spec fn wf(&self) -> bool {
        valid_name(self.name@) && valid_percentage(self.percentage as int)
    }

    /// The name of the employee whose salary the request raises.
    pub fn get_name(&self) -> (r: EmployeeName)
        ensures
            r.name@ == self.name@,
            self.wf() ==> r.wf(),
    {
        EmployeeName { name: self.name.clone() }
    }
}

} // verus!
