//! The built-in functions: their names, the check of their arguments, and
//! what is left to do with the numbers of a call.
use vstd::prelude::*;
use vstd::string::*;
use super::error::{ExpressionError, ExpressionErrorView, ExpressionResult};
use super::parser::Position;
use super::statistics::{has_rank, is_first, is_mode, key_of, mode_index, order_key, rank_index};
use super::value::ValueType;

verus! {

/// The built-in functions.
#[derive(Debug, Clone, Copy, PartialEq, Eq, Structural)]
pub enum Function {
    Sum,
    Mean,
    Median,
    Mode,
}

/// What is left to do with the numbers of a call once the library has
/// decided what can be decided without floating-point arithmetic. The
/// indices are indices into the list of numbers.
#[derive(Debug, Clone, Copy, PartialEq, Eq, Structural)]
pub enum Plan {
    /// The sum of the numbers.
    Total,
    /// The sum of the numbers, divided by how many they are.
    Average,
    /// The number at the index.
    Pick(usize),
    /// The mean of the numbers at the two indices.
    Midpoint(usize, usize),
}

/// Whether each of the doubles with the bits `numbers` is a number.
pub open spec fn all_numbers(numbers: Seq<u64>) -> bool {
    forall|i: int| 0 <= i < numbers.len() ==> key_of(#[trigger] numbers[i]) is Some
}

/// The keys of the doubles with the bits `numbers`.
pub open spec fn keys_of(numbers: Seq<u64>) -> Seq<i64> {
    Seq::new(numbers.len(), |i: int| key_of(numbers[i]).unwrap())
}

/// Whether `at` is the first index of the key that stands at place `k`
/// when the keys are put in ascending order.
pub open spec fn stands_at(keys: Seq<i64>, at: int, k: int) -> bool {
    has_rank(keys, at, k) && forall|j: int| 0 <= j < at ==> !has_rank(keys, j, k)
}

/// The index of the first type in `types` that is not `Number`, from index
/// `from` on.
pub open spec fn first_other(types: Seq<(ValueType, Position)>, from: nat) -> Option<nat>
    decreases types.len() - from,
{
    if from >= types.len() {
        None
    } else if types[from as int].0 != ValueType::Number {
        Some(from)
    } else {
        first_other(types, from + 1)
    }
}

/// What the check of the arguments of a statistic function comes to. The
/// arguments are given by their types and their places in the source.
///
/// Accepted are one or more plain numbers, and a single column of numbers.
/// No argument at all is an error of its own; any other list is a type
/// error that names the first argument that does not fit.
pub open spec fn checked(args: Seq<(ValueType, Position)>) -> Result<(), ExpressionErrorView> {
    if args.len() == 0 {
        Err(ExpressionErrorView::missing_arguments())
    } else if args.len() == 1 && args[0].0 is Column {
        if args[0].0 == ValueType::Column(Box::new(ValueType::Number)) {
            Ok(())
        } else {
            Err(
                ExpressionErrorView::type_error(
                    ValueType::Column(Box::new(ValueType::Number)),
                    args[0].0,
                    args[0].1,
                ),
            )
        }
    } else {
        match first_other(args, 0) {
            Some(i) => Err(
                ExpressionErrorView::type_error(
                    ValueType::Number,
                    args[i as int].0,
                    args[i as int].1,
                ),
            ),
            None => Ok(()),
        }
    }
}

impl Function {
    /// The name under which a formula calls the function.
    pub open spec fn name_text(self) -> Seq<char> {
        match self {
            Function::Sum => "sum"@,
            Function::Mean => "mean"@,
            Function::Median => "median"@,
            Function::Mode => "mode"@,
        }
    }

    /// The function that a formula calls by `name`, if there is one.
    pub open spec fn named(name: Seq<char>) -> Option<Function> {
        if name == "sum"@ {
            Some(Function::Sum)
        } else if name == "mean"@ {
            Some(Function::Mean)
        } else if name == "median"@ {
            Some(Function::Median)
        } else if name == "mode"@ {
            Some(Function::Mode)
        } else {
            None
        }
    }

    /// The function that a formula calls by `name`; the names are in lower
    /// case.
    pub fn from_str(name: &str) -> (f: Option<Function>)
        ensures
            f == Function::named(name@),
    {
        let name = String::from_str(name);
        if name == String::from_str("sum") {
            Some(Function::Sum)
        } else if name == String::from_str("mean") {
            Some(Function::Mean)
        } else if name == String::from_str("median") {
            Some(Function::Median)
        } else if name == String::from_str("mode") {
            Some(Function::Mode)
        } else {
            None
        }
    }

    /// The type of what the function returns; it can be told without
    /// evaluating anything.
    pub fn return_type(&self) -> (t: ValueType)
        ensures
            t == ValueType::Number,
    {
        match self {
            Function::Sum => ValueType::Number,
            Function::Mean => ValueType::Number,
            Function::Median => ValueType::Number,
            Function::Mode => ValueType::Number,
        }
    }

    /// Whether the function puts its numbers in order.
    pub open spec fn orders(self) -> bool {
        self == Function::Median || self == Function::Mode
    }

    /// Whether `plan` is what is left to do for this function on the
    /// doubles with the bits `numbers`, of which there is at least one:
    ///
    /// - the sum is the total of the numbers, the mean their average;
    /// - the median of an odd count of numbers is the one in the middle of
    ///   the ascending order, the median of an even count is the midpoint
    ///   of the two in the middle;
    /// - the mode is the number that occurs most often, and the smallest
    ///   such number where several occur as often.
    ///
    /// Of equal numbers the first in the list is named.
    pub open spec fn suits(self, numbers: Seq<u64>, plan: Plan) -> bool {
        let keys = keys_of(numbers);
        let n = numbers.len() as int;
        match self {
            Function::Sum => plan == Plan::Total,
            Function::Mean => plan == Plan::Average,
            Function::Median => if n % 2 == 1 {
                plan matches Plan::Pick(at) && stands_at(keys, at as int, n / 2)
            } else {
                plan matches Plan::Midpoint(low, high) && stands_at(keys, low as int, n / 2 - 1)
                    && stands_at(keys, high as int, n / 2)
            },
            Function::Mode => plan matches Plan::Pick(at) && is_mode(keys, at as int) && is_first(
                keys,
                at as int,
            ),
        }
    }

    /// Decides what is left to do with the numbers of a call; `numbers`
    /// holds the bits of the doubles. Fails where there is no number, and,
    /// for a function that puts its numbers in order, where one of them is
    /// not a number.
    pub fn plan(&self, numbers: &Vec<u64>) -> (r: ExpressionResult<Plan>)
        ensures
            match r {
                Ok(plan) => {
                    &&& numbers@.len() > 0
                    &&& self.orders() ==> all_numbers(numbers@)
                    &&& self.suits(numbers@, plan)
                },
                Err(e) => if numbers@.len() == 0 {
                    e@ == ExpressionErrorView::missing_arguments()
                } else {
                    &&& self.orders()
                    &&& !all_numbers(numbers@)
                    &&& e@ == ExpressionErrorView::unordered()
                },
            },
    {
        if numbers.len() == 0 {
            return Err(ExpressionError::missing_arguments());
        }
        match self {
            Function::Sum => {
                return Ok(Plan::Total);
            },
            Function::Mean => {
                return Ok(Plan::Average);
            },
            _ => {},
        }
        let mut keys: Vec<i64> = Vec::new();
        let mut i: usize = 0;
        while i < numbers.len()
            invariant
                i <= numbers@.len(),
                keys@.len() == i,
                self.orders(),
                forall|j: int| 0 <= j < i ==> key_of(#[trigger] numbers@[j]) == Some(keys@[j]),
            decreases numbers@.len() - i,
        {
            match order_key(numbers[i]) {
                Some(key) => keys.push(key),
                None => {
                    return Err(ExpressionError::unordered());
                },
            }
            i += 1;
        }
        assert(keys@ =~= keys_of(numbers@));
        let n: usize = keys.len();
        match self {
            Function::Median => {
                if n % 2 == 1 {
                    Ok(Plan::Pick(rank_index(&keys, n / 2)))
                } else {
                    let low = rank_index(&keys, n / 2 - 1);
                    let high = rank_index(&keys, n / 2);
                    Ok(Plan::Midpoint(low, high))
                }
            },
            _ => Ok(Plan::Pick(mode_index(&keys))),
        }
    }

    /// Checks the arguments of a call before it is evaluated. Each argument
    /// is given by its type and its place in the source.
    pub fn validate(&self, args: &Vec<(ValueType, Position)>) -> (r: ExpressionResult<()>)
        ensures
            match checked(args@) {
                Ok(_) => r is Ok,
                Err(e) => r is Err && r->Err_0@ == e,
            },
    {
        if args.len() == 0 {
            return Err(ExpressionError::missing_arguments());
        }
        if args.len() == 1 {
            match &args[0].0 {
                ValueType::Column(element) => {
                    if element.is_number() {
                        return Ok(());
                    } else {
                        let wanted = ValueType::Column(Box::new(ValueType::Number));
                        return Err(ExpressionError::type_error(&wanted, &args[0].0, args[0].1));
                    }
                },
                _ => {},
            }
        }
        let mut i: usize = 0;
        while i < args.len()
            invariant
                i <= args.len(),
                args@.len() > 0,
                !(args@.len() == 1 && args@[0].0 is Column),
                first_other(args@, 0) == first_other(args@, i as nat),
            decreases args.len() - i,
        {
            if !args[i].0.is_number() {
                return Err(ExpressionError::type_error(&ValueType::Number, &args[i].0, args[i].1));
            }
            i += 1;
        }
        Ok(())
    }
}

} // verus!
