use zerum::parser::{ParseFailure, PythonParser, RustPythonParser};

fn reads_back(source: &str) {
    match RustPythonParser.parse_file(source, "sample.py") {
        Ok(_) => {}
        Err(ParseFailure::Syntax(m)) => panic!("rejected as a syntax error: {m}"),
        Err(ParseFailure::UnreadableTree) => panic!("parser tree not read back for:\n{source}"),
    }
}

#[test]
fn parses_classes_decorators_and_annotations() {
    reads_back(
        r#"
import functools
from dataclasses import dataclass, field as fld
from . import sibling
from ..pkg.mod import (a as b, c)

@dataclass(frozen=True)
class Point(Base, metaclass=Meta):
    """A point."""
    x: int = 0
    y: "float"
    tags: list[str] = fld(default_factory=list)

    @property
    def norm(self) -> float:
        return (self.x ** 2 + self.y ** 2) ** 0.5

    @staticmethod
    def origin() -> "Point":
        return Point(0, 0.0)

    @functools.lru_cache(maxsize=None)
    def cached(self, /, a, b=2, *args, c, d=4, **kwargs) -> dict[str, int]:
        return {"a": a, **kwargs}

class Empty: ...
"#,
    );
}

#[test]
fn parses_async_with_and_await() {
    reads_back(
        r#"
async def fetch(session, url):
    async with session.get(url) as resp, other() as (a, b):
        data = await resp.json()
    async for item in stream():
        yield item
    result = [x async for x in agen() if await ok(x)]
    return await asyncio.gather(*tasks, return_exceptions=True)

def sync():
    with open("f") as fh, lock:
        pass
    with (open("a") as a, open("b") as b):
        pass
"#,
    );
}

#[test]
fn parses_match_statements() {
    reads_back(
        r#"
def handle(command):
    match command:
        case ["go", direction] if direction in DIRS:
            return direction
        case {"kind": "move", "to": (x, y), **rest}:
            return x, y
        case Point(x=0, y=0) | Point(x=1):
            return "origin"
        case [first, *others]:
            return first
        case str() as text:
            return text
        case -1 | 1.5 | 2j | "s" | b"b" | None | True:
            return None
        case Color.RED:
            return "red"
        case _:
            raise ValueError(command)
"#,
    );
}

#[test]
fn parses_exception_handling() {
    reads_back(
        r#"
def risky():
    try:
        work()
    except (KeyError, IndexError) as e:
        raise RuntimeError("bad") from e
    except ValueError:
        pass
    except:
        raise
    else:
        done()
    finally:
        cleanup()
    try:
        work()
    except* OSError as group:
        log(group)
    except* (TypeError, ValueError):
        pass
    assert x > 0, "x must be positive"
"#,
    );
}

#[test]
fn parses_comprehensions_lambdas_and_operators() {
    reads_back(
        r#"
squares = [x * x for x in range(10) if x % 2 == 0]
pairs = {k: v for k, v in items.items()}
unique = {y for row in grid for y in row}
lazy = (n for n in nums)
key = lambda item, *, reverse=False: (item[1], -item[0])
fn = lambda: None
value = a if cond else b
flags = not a and (b or c) and d is not None and e not in f
mixed = ~x | y & z ^ w << 2 >> 1
maths = -a + b - c * d / e // f % g @ h ** 2
chain = 0 < x <= 10 != y == z >= w > v
sliced = seq[1:], seq[:-1], seq[::2], seq[1:10:3], grid[1, 2:3, ...]
starred = [*a, *b]
merged = {**a, "k": 1}
call = f(a, *rest, key=1, **opts)
attr = obj.attr.method().other[0]
"#,
    );
}

#[test]
fn parses_strings_and_literals() {
    reads_back(
        r#"
plain = 'single' "double"
raw = r"\d+\s*"
byte = b"\x00\xff"
triple = """multi
line"""
fancy = f"{name!r:>10} is {age:{width}} and {{braces}} {x=}"
nested = f"{'inner'} {f'{deep}'}"
unicode = "héllo wörld ✓ 日本"
numbers = (0, 42, -7, 1_000_000, 0x1F, 0o17, 0b1010, 3.14, 1e-9, 2j, 1.5e3j)
consts = (None, True, False, ...)
tup = ()
single = (1,)
empty_list = []
empty_dict = {}
"#,
    );
}

#[test]
fn parses_simple_statements() {
    reads_back(
        r#"
counter = 0
total: int
total: int = 5
counter += 1; counter -= 1
counter *= 2
counter //= 3
counter **= 2
counter |= 1
counter @= m
a = b = c = 0
x, *y = 1, 2, 3
(p, q), r = (1, 2), 3
obj.attr = 1
seq[0] = 2
del seq[0], obj.attr
global counter
if (n := len(data)) > 10:
    print(n)

def outer():
    value = 0
    def inner():
        nonlocal value
        value += 1
    return inner

def gen():
    yield
    yield 1
    received = yield from other()
    return received

while True:
    if done:
        break
    else:
        continue
else:
    pass

for i, (a, b) in enumerate(pairs):
    pass
else:
    pass

type Alias = list[int]
"#,
    );
}

#[test]
fn parses_generics_and_deep_nesting() {
    reads_back(
        r#"
def first[T](items: list[T]) -> T:
    return items[0]

class Box[T: (int, str), *Ts, **P]:
    def __init__(self, item: T) -> None:
        self.item = item

def deep(a):
    if a:
        for b in a:
            while b:
                with ctx():
                    try:
                        if b > 1:
                            return [[c for c in d] for d in b]
                        elif b < 0:
                            return {e: {f: g for f, g in e} for e in b}
                        else:
                            return lambda h: lambda i: h + i
                    except Exception:
                        return None
"#,
    );
}

#[test]
fn parses_empty_and_comment_only_modules() {
    reads_back("");
    reads_back("# only a comment\n");
    reads_back("\"\"\"Only a docstring.\"\"\"\n");
    reads_back("pass\n");
}
