//! Values that may be absent and results that may fail: searching,
//! optional settings, looking a user up, and the best profit in a row of
//! prices.

use vstd::prelude::*;
use vstd::pervasive::unreached;
use vstd::string::StringExecFns;
use crate::decimal::{decimal, labelled, labelled_signed, parse_i32, signed_decimal};

verus! {

/// Data of a request, of whatever type.
#[derive(Debug)]
pub struct ReqData<T> {
    /// The data.
    pub data: T,
}

/// Settings of a server; the port may be left out.
#[derive(Debug)]
pub struct Config {
    /// The port, if one is set.
    pub port: Option<u16>,
    /// The name of the host.
    pub host: String,
}

/// The first number above `bound`, if there is one: nothing before it is
/// above `bound`.
pub open spec fn first_above_of(numbers: Seq<i32>, bound: int) -> Option<i32>
    decreases numbers.len(),
{
    if numbers.len() == 0 {
        None
    } else if numbers[0] > bound {
        Some(numbers[0])
    } else {
        first_above_of(numbers.skip(1), bound)
    }
}

/// The first of `numbers` that is greater than `bound`.
pub fn first_above(numbers: &Vec<i32>, bound: i32) -> (found: Option<i32>)
    ensures
        found == first_above_of(numbers@, bound as int),
        match found {
            Some(value) => exists|k: int|
                0 <= k < numbers.len() && numbers[k] == value && value > bound && forall|i: int|
                    0 <= i < k ==> numbers[i] <= bound,
            None => forall|i: int| 0 <= i < numbers.len() ==> numbers[i] <= bound,
        },
{
    let mut k: usize = 0;
    assert(numbers@.skip(0) == numbers@);
    while k < numbers.len()
        invariant
            k <= numbers.len(),
            forall|i: int| 0 <= i < k ==> numbers[i] <= bound,
            first_above_of(numbers@, bound as int) == first_above_of(
                numbers@.skip(k as int),
                bound as int,
            ),
        decreases numbers.len() - k,
    {
        if numbers[k] > bound {
            return Some(numbers[k]);
        }
        assert(numbers@.skip(k as int).skip(1) == numbers@.skip(k + 1));
        k += 1;
    }
    None
}

/// The line that says where a server will run.
pub open spec fn server_line_of(config: Config) -> Seq<char> {
    match config.port {
        Some(port) => "Server will run on "@ + config.host@ + ":"@ + decimal(port as nat),
        None => "Using default port."@,
    }
}

impl Config {
    /// The line that says where the server will run.
    pub fn server_line(&self) -> (line: String)
        ensures
            line@ == server_line_of(*self),
    {
        if let Some(port) = self.port {
            let mut line = String::from_str("Server will run on ");
            line.append(self.host.as_str());
            let rest = labelled(":", port as u128, "");
            line.append(rest.as_str());
            proof {
                reveal_strlit("");
            }
            line
        } else {
            String::from_str("Using default port.")
        }
    }
}

/// The name of the user with the given number: only the user with number
/// one is known.
pub fn find_user_by_id(id: i32) -> (user: Option<String>)
    ensures
        id == 1 ==> (user matches Some(name) && name@ == "Alice"@),
        id != 1 ==> user is None,
{
    if id == 1 {
        return Some(String::from_str("Alice"));
    }
    None
}

/// What is gained by buying on day `buy` and selling on day `sell`.
pub open spec fn gain(prices: Seq<i32>, buy: int, sell: int) -> int {
    prices[sell] - prices[buy]
}

/// Whether `profit` is the best profit in a row of prices: the greatest
/// gain of buying on one day and selling on a later one, and zero where no
/// such gain is above zero. The last price of the row is never looked at.
pub open spec fn is_max_profit(prices: Seq<i32>, profit: int) -> bool {
    let days = prices.len() - 1;
    &&& profit >= 0
    &&& forall|buy: int, sell: int|
        0 <= buy < sell < days ==> #[trigger] gain(prices, buy, sell) <= profit
    &&& (profit == 0 || exists|buy: int, sell: int|
        0 <= buy < sell < days && #[trigger] gain(prices, buy, sell) == profit)
}

/// The best profit in a row of prices, or an error where the row has fewer
/// than two prices.
pub fn max_profit(prices: Vec<i32>) -> (result: Result<i64, String>)
    ensures
        result is Err <==> prices.len() < 2,
        result matches Err(message) ==> message@ == "Not enough data to calculate profit"@,
        result matches Ok(profit) ==> is_max_profit(prices@, profit as int),
{
    if prices.len() < 2 {
        return Err(String::from_str("Not enough data to calculate profit"));
    }
    let days: usize = prices.len() - 1;
    let mut left: usize = 0;
    let mut profit: i64 = 0;
    let mut right: usize = 1;
    while right < days
        invariant
            days == prices.len() - 1,
            1 <= right <= days,
            left < right,
            forall|i: int| 0 <= i < right ==> prices[left as int] <= prices[i],
            0 <= profit <= u32::MAX,
            forall|buy: int, sell: int|
                0 <= buy < sell < right ==> #[trigger] gain(prices@, buy, sell) <= profit,
            profit == 0 || exists|buy: int, sell: int|
                0 <= buy < sell < right && #[trigger] gain(prices@, buy, sell) == profit,
        decreases days - right,
    {
        let temp: i64 = prices[right] as i64 - prices[left] as i64;
        let ghost before = profit;
        if temp > 0 {
            if temp > profit {
                profit = temp;
                assert(gain(prices@, left as int, right as int) == profit);
            }
        } else {
            left = right;
        }
        assert forall|buy: int, sell: int| 0 <= buy < sell < right + 1 implies #[trigger] gain(
            prices@,
            buy,
            sell,
        ) <= profit by {
            if sell == right {
                assert(gain(prices@, buy, sell) <= temp);
            } else {
                assert(gain(prices@, buy, sell) <= before);
            }
        }
        proof {
            if before != 0 && profit == before {
                let (buy, sell) = choose|buy: int, sell: int|
                    0 <= buy < sell < right && #[trigger] gain(prices@, buy, sell) == before;
                assert(0 <= buy < sell < right + 1 && gain(prices@, buy, sell) == profit);
            }
        }
        right += 1;
    }
    Ok(profit)
}

/// The line that shows one element of a list with its place.
pub fn element_line(index: usize, value: &str) -> (line: String)
    ensures
        line@ == "The "@ + decimal(index as nat) + "th element in vector is: "@ + value@,
{
    let mut line = labelled("The ", index as u128, "th element in vector is: ");
    line.append(value);
    line
}

/// A computation that is worth avoiding: it leaves a line behind and gives
/// forty-two.
pub fn expensive_computation(lines: &mut Vec<String>) -> (value: u32)
    ensures
        value == 42,
        final(lines)@.len() == old(lines)@.len() + 1,
        final(lines)@.take(old(lines)@.len() as int) == old(lines)@,
        final(lines)@.last()@ == "expensive_computation"@,
{
    lines.push(String::from_str("expensive_computation"));
    42
}

/// What the demonstration leaves behind: its lines, and the two values
/// that its last step holds against each other.
#[derive(Debug)]
pub struct GenericReport {
    /// The lines, in order.
    pub lines: Vec<String>,
    /// The value that was recovered from a failure by handling it.
    pub recovered: u32,
    /// The value that the last step holds it against.
    pub expected: u32,
}

/// The lines of the demonstration.
pub open spec fn generic_type_lines() -> Seq<Seq<char>> {
    seq![
        signed_decimal(42) + ", "@ + "42"@,
        "Found a number greater than 3: "@ + signed_decimal(4),
        "Parsed number: "@ + signed_decimal(42),
        "Server will run on "@ + "localhost"@ + ":"@ + decimal(8080),
        "None"@,
        "No user found"@,
        "Max Profit: "@ + signed_decimal(29),
        "The "@ + decimal(0) + "th element in vector is: "@ + "a"@,
        "The "@ + decimal(1) + "th element in vector is: "@ + "b"@,
        "expensive_computation"@,
        "error: "@ + decimal(404),
        "expensive_computation"@,
    ]
}

/// The demonstration: data of two types, a search, a number read from
/// text, an optional setting, a user that is not found, the best profit of
/// a row of prices, a list shown element by element, and three ways to
/// fall back on a value. The last step recovers 404 from a failure and
/// holds it against 42.
pub fn generic_type() -> (report: GenericReport)
    ensures
        report.lines.deep_view() == generic_type_lines(),
        report.recovered == 404,
        report.expected == 42,
{
    let mut lines: Vec<String> = Vec::new();
    proof {
        reveal_strlit("");
    }

    let number_data = ReqData { data: 42i32 };
    let string_data = ReqData { data: String::from_str("42") };
    let mut both = labelled_signed("", number_data.data as i64, "");
    both.append(", ");
    both.append(string_data.data.as_str());
    lines.push(both);

    let mut numbers: Vec<i32> = Vec::new();
    numbers.push(1);
    numbers.push(2);
    numbers.push(3);
    numbers.push(4);
    numbers.push(5);
    match first_above(&numbers, 3) {
        Some(value) => {
            assert(value == 4);
            lines.push(labelled_signed("Found a number greater than 3: ", value as i64, ""));
        },
        None => {
            assert(numbers[3] <= 3);
            lines.push(String::from_str("No number greater than 3 found."));
        },
    }

    proof {
        reveal_strlit("42");
        let text = "42"@;
        assert(text.drop_last() == seq!['4']);
        assert(text.drop_last().drop_last() == Seq::<char>::empty());
        reveal_with_fuel(crate::decimal::digits_value, 3);
        assert(crate::decimal::digits_value(text) == 42);
    }
    match parse_i32("42") {
        Some(n) => {
            lines.push(labelled_signed("Parsed number: ", n as i64, ""));
        },
        None => {
            lines.push(String::from_str("Failed to parse the number."));
        },
    }

    let config = Config { port: Some(8080), host: String::from_str("localhost") };
    lines.push(config.server_line());

    match find_user_by_id(2) {
        Some(_) => unreached(),
        None => {
            lines.push(String::from_str("None"));
        },
    }
    match find_user_by_id(2) {
        Some(user) => {
            lines.push(user);
        },
        None => {
            lines.push(String::from_str("No user found"));
        },
    }

    let mut nv_stock: Vec<i32> = Vec::new();
    nv_stock.push(123);
    nv_stock.push(114);
    nv_stock.push(118);
    nv_stock.push(116);
    nv_stock.push(143);
    nv_stock.push(128);
    let ghost prices = nv_stock@;
    match max_profit(nv_stock) {
        Ok(v) => {
            assert(gain(prices, 1, 4) == 29);
            assert(v == 29);
            lines.push(labelled_signed("Max Profit: ", v, ""));
        },
        Err(e) => {
            let mut line = String::from_str("err: ");
            line.append(e.as_str());
            lines.push(line);
        },
    }

    let mut v3: Vec<String> = Vec::new();
    v3.push(String::from_str("a"));
    v3.push(String::from_str("b"));
    let mut idx: usize = 0;
    while idx < v3.len()
        invariant
            idx <= v3.len() == 2,
            v3[0]@ == "a"@,
            v3[1]@ == "b"@,
            lines.len() == 7 + idx,
            forall|i: int| 0 <= i < 7 + idx ==> (#[trigger] lines[i])@ == generic_type_lines()[i],
        decreases v3.len() - idx,
    {
        lines.push(element_line(idx, v3[idx].as_str()));
        idx += 1;
    }

    let x: Result<u32, u32> = Ok(10);
    assert(x.unwrap() == 10);

    let ghost listed = lines@;
    let default = expensive_computation(&mut lines);
    assert forall|i: int| 0 <= i < 10 implies (#[trigger] lines[i])@ == generic_type_lines()[i] by {
        if i < 9 {
            assert(lines@[i] == lines@.take(9)[i]);
            assert(listed[i]@ == generic_type_lines()[i]);
        }
    }
    let x: Result<u32, u32> = Err(0);
    let fallen_back = match x {
        Ok(value) => value,
        Err(_) => default,
    };
    assert(fallen_back == default);

    let x: Result<u32, u32> = Err(404);
    let recovered = match x {
        Ok(value) => value,
        Err(err) => {
            lines.push(labelled("error: ", err as u128, ""));
            err
        },
    };
    let ghost shown = lines@;
    let expected = expensive_computation(&mut lines);
    proof {
        reveal_strlit("");
        assert forall|i: int| 0 <= i < 12 implies lines.deep_view()[i] == generic_type_lines()[i] by {
            if i < 11 {
                assert(lines@[i] == lines@.take(11)[i]);
                assert(shown[i]@ == generic_type_lines()[i]);
            }
        }
    }
    GenericReport { lines, recovered, expected }
}

} // verus!
