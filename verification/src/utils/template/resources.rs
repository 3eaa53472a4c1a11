//! The files that Zork++ writes beside a build, as they are written.
use vstd::prelude::*;

verus! {

/// The name of the header that collects the standard library.
pub const STD_HEADER_NAME: &'static str = "std.h";

/// The name of the module map through which Clang finds that header.
pub const ZORK_MODULEMAP_NAME: &'static str = "zork.modulemap";

/// A header that includes the standard library, so that Clang can offer it
/// as one module where the runtime in use ships none.
pub const STD_HEADER: &'static str = "// The headers of the C++ standard library, collected for `import std;`

#include <algorithm>
#include <any>
#include <array>
#include <atomic>
#include <bitset>
#include <cassert>
#include <cctype>
#include <cerrno>
#include <cfloat>
#include <charconv>
#include <chrono>
#include <climits>
#include <cmath>
#include <compare>
#include <complex>
#include <concepts>
#include <condition_variable>
#include <cstddef>
#include <cstdint>
#include <cstdio>
#include <cstdlib>
#include <cstring>
#include <ctime>
#include <deque>
#include <exception>
#include <filesystem>
#include <forward_list>
#include <fstream>
#include <functional>
#include <future>
#include <initializer_list>
#include <iomanip>
#include <ios>
#include <iosfwd>
#include <iostream>
#include <istream>
#include <iterator>
#include <limits>
#include <list>
#include <locale>
#include <map>
#include <memory>
#include <mutex>
#include <new>
#include <numbers>
#include <numeric>
#include <optional>
#include <ostream>
#include <queue>
#include <random>
#include <ranges>
#include <ratio>
#include <regex>
#include <set>
#include <shared_mutex>
#include <span>
#include <sstream>
#include <stack>
#include <stdexcept>
#include <streambuf>
#include <string>
#include <string_view>
#include <system_error>
#include <thread>
#include <tuple>
#include <type_traits>
#include <typeindex>
#include <typeinfo>
#include <unordered_map>
#include <unordered_set>
#include <utility>
#include <valarray>
#include <variant>
#include <vector>
#include <version>
";

/// The module map that declares the module `std` over [`STD_HEADER`].
pub const ZORK_MODULEMAP: &'static str = "module std {
    header \"std.h\"
    export *
}
";

} // verus!
