use vstd::prelude::*;
use vstd::string::*;

verus! {

/// The element kind of a field type: a primitive type or a class by its
/// internal name (with `/` between package parts).
#[derive(Debug, Clone, PartialEq)]
pub enum ComponentType {
    Byte,
    Char,
    Double,
    Float,
    Int,
    Long,
    Reference(String),
    Short,
    Boolean,
}

/// A field type: `dim` array dimensions around a component type.
#[derive(Debug, Clone, PartialEq)]
pub struct FieldType {
    pub dim: u8,
    pub ty: ComponentType,
}

/// The parameter types and the result type (none: void) of a method.
pub struct MethodDescriptor {
    pub params: Vec<FieldType>,
    pub rty: Option<FieldType>,
}

/// The descriptor text of a component type.
pub open spec fn component_text(c: ComponentType) -> Seq<char> {
    match c {
        ComponentType::Byte => seq!['B'],
        ComponentType::Char => seq!['C'],
        ComponentType::Double => seq!['D'],
        ComponentType::Float => seq!['F'],
        ComponentType::Int => seq!['I'],
        ComponentType::Long => seq!['J'],
        ComponentType::Short => seq!['S'],
        ComponentType::Boolean => seq!['Z'],
        ComponentType::Reference(name) => seq!['L'] + name@ + seq![';'],
    }
}

/// `n` opening brackets.
pub open spec fn brackets(n: nat) -> Seq<char> {
    Seq::new(n, |i: int| '[')
}

/// The descriptor text of a field type: one `[` per dimension, then the
/// component's letter, or `L`, the class name and `;`.
pub open spec fn descriptor_text(t: FieldType) -> Seq<char> {
    brackets(t.dim as nat) + component_text(t.ty)
}

/// A field type that a descriptor can denote: a class name holds no `;`.
pub open spec fn field_type_wf(t: FieldType) -> bool {
    t.ty matches ComponentType::Reference(name) ==> !name@.contains(';')
}

/// The primitive type that a descriptor letter names.
pub open spec fn primitive_of(c: char) -> Option<ComponentType> {
    match c {
        'B' => Some(ComponentType::Byte),
        'C' => Some(ComponentType::Char),
        'D' => Some(ComponentType::Double),
        'F' => Some(ComponentType::Float),
        'I' => Some(ComponentType::Int),
        'J' => Some(ComponentType::Long),
        'S' => Some(ComponentType::Short),
        'Z' => Some(ComponentType::Boolean),
        _ => None,
    }
}

/// The character at `k` of `descriptor_text(t) + rest`.
proof fn lemma_text_char(t: FieldType, rest: Seq<char>, k: int)
    requires
        0 <= k < descriptor_text(t).len(),
    ensures
        (descriptor_text(t) + rest)[k] == descriptor_text(t)[k],
        k < t.dim ==> descriptor_text(t)[k] == '[',
        k == t.dim ==> descriptor_text(t)[k] == component_text(t.ty)[0],
{
}

/// A descriptor and what follows it are split in one way only: the
/// descriptor text of a field type is never a proper prefix of another's.
pub proof fn lemma_descriptor_unique(t1: FieldType, r1: Seq<char>, t2: FieldType, r2: Seq<char>)
    requires
        field_type_wf(t1),
        field_type_wf(t2),
        descriptor_text(t1) + r1 == descriptor_text(t2) + r2,
    ensures
        descriptor_text(t1) == descriptor_text(t2),
        r1 == r2,
{
    let s = descriptor_text(t1) + r1;
    let d1 = t1.dim as int;
    let d2 = t2.dim as int;
    if d1 < d2 {
        lemma_text_char(t1, r1, d1);
        lemma_text_char(t2, r2, d1);
        assert(component_text(t1.ty)[0] != '[');
    }
    if d2 < d1 {
        lemma_text_char(t1, r1, d2);
        lemma_text_char(t2, r2, d2);
        assert(component_text(t2.ty)[0] != '[');
    }
    assert(d1 == d2);
    let c1 = component_text(t1.ty);
    let c2 = component_text(t2.ty);
    lemma_text_char(t1, r1, d1);
    lemma_text_char(t2, r2, d1);
    if let ComponentType::Reference(n1) = t1.ty {
        if let ComponentType::Reference(n2) = t2.ty {
            let l1 = n1@.len() as int;
            let l2 = n2@.len() as int;
            if l1 < l2 {
                lemma_text_char(t1, r1, d1 + 1 + l1);
                lemma_text_char(t2, r2, d1 + 1 + l1);
                assert(n2@[l1] == ';');
                assert(n2@.contains(';'));
            }
            if l2 < l1 {
                lemma_text_char(t1, r1, d1 + 1 + l2);
                lemma_text_char(t2, r2, d1 + 1 + l2);
                assert(n1@[l2] == ';');
                assert(n1@.contains(';'));
            }
        }
    }
    assert(descriptor_text(t1).len() == descriptor_text(t2).len());
    assert(descriptor_text(t1) =~= s.subrange(0, descriptor_text(t1).len() as int));
    assert(descriptor_text(t2) =~= s.subrange(0, descriptor_text(t1).len() as int));
    assert(r1 =~= s.subrange(descriptor_text(t1).len() as int, s.len() as int));
    assert(r2 =~= s.subrange(descriptor_text(t1).len() as int, s.len() as int));
}

/// Whether `x` is the descriptor of `t` followed by `rest`.
pub open spec fn splits(x: Seq<char>, t: FieldType, rest: Seq<char>) -> bool {
    field_type_wf(t) && x == descriptor_text(t) + rest
}

/// What a split of `x` says of its characters.
proof fn lemma_split_facts(x: Seq<char>, t: FieldType, rest: Seq<char>)
    requires
        splits(x, t, rest),
    ensures
        t.dim < x.len(),
        forall|j: int| 0 <= j < t.dim ==> x[j] == '[',
        x[t.dim as int] == component_text(t.ty)[0],
        x[t.dim as int] != '[',
        primitive_of(x[t.dim as int]) matches Some(c) ==> t.ty == c,
        x[t.dim as int] != 'L' ==> primitive_of(x[t.dim as int]) is Some,
        x[t.dim as int] == 'L' ==> t.ty is Reference,
        t.ty matches ComponentType::Reference(name) ==> t.dim + 1 + name@.len() < x.len() && x[t.dim
            + 1 + name@.len()] == ';' && forall|k: int|
            0 <= k < name@.len() ==> x[t.dim + 1 + k] == name@[k],
{
    assert forall|j: int| 0 <= j < t.dim implies x[j] == '[' by {
        lemma_text_char(t, rest, j);
    }
    lemma_text_char(t, rest, t.dim as int);
    if let ComponentType::Reference(name) = t.ty {
        lemma_text_char(t, rest, t.dim + 1 + name@.len());
        assert forall|k: int| 0 <= k < name@.len() implies x[t.dim + 1 + k] == name@[k] by {
            lemma_text_char(t, rest, t.dim + 1 + k);
        }
    }
}

/// The field type that `x` starts with, and the rest of `x` after it; none
/// where `x` does not start with a field descriptor.
pub fn parse_field_descriptor_incomplete(x: &str) -> (r: Option<(&str, FieldType)>)
    ensures
        match r {
            Some((rest, t)) => splits(x@, t, rest@),
            None => forall|t: FieldType, rest: Seq<char>| !#[trigger] splits(x@, t, rest),
        },
{
    let n = x.unicode_len();
    let mut d: usize = 0;
    while d < n && x.get_char(d) == '['
        invariant
            n == x@.len(),
            d <= n,
            forall|j: int| 0 <= j < d ==> x@[j] == '[',
        decreases n - d,
    {
        d += 1;
    }
    // every split puts the component letter at `d`
    assert forall|t: FieldType, rest: Seq<char>| #[trigger] splits(x@, t, rest) implies t.dim == d
        && d < n by {
        lemma_split_facts(x@, t, rest);
        if (t.dim as int) < d {
            assert(x@[t.dim as int] == '[');
        }
        if d < t.dim {
            assert(x@[d as int] == '[');
        }
    }
    if d == n || d > 255 {
        return None;
    }
    let c = x.get_char(d);
    let ty = match c {
        'B' => ComponentType::Byte,
        'C' => ComponentType::Char,
        'D' => ComponentType::Double,
        'F' => ComponentType::Float,
        'I' => ComponentType::Int,
        'J' => ComponentType::Long,
        'S' => ComponentType::Short,
        'Z' => ComponentType::Boolean,
        'L' => {
            let mut j: usize = d + 1;
            while j < n && x.get_char(j) != ';'
                invariant
                    n == x@.len(),
                    d + 1 <= j <= n,
                    forall|k: int| d + 1 <= k < j ==> x@[k] != ';',
                decreases n - j,
            {
                j += 1;
            }
            if j == n {
                assert forall|t: FieldType, rest: Seq<char>| !#[trigger] splits(x@, t, rest) by {
                    if splits(x@, t, rest) {
                        lemma_split_facts(x@, t, rest);
                    }
                }
                return None;
            }
            let name_text = x.substring_char(d + 1, j);
            let name = String::from_str(name_text);
            let rest = x.substring_char(j + 1, n);
            let t = FieldType { dim: d as u8, ty: ComponentType::Reference(name) };
            proof {
                assert(!name@.contains(';')) by {
                    if name@.contains(';') {
                        let k = choose|k: int| 0 <= k < name@.len() && name@[k] == ';';
                        assert(x@[d + 1 + k] == ';');
                    }
                }
                assert(x@ =~= descriptor_text(t) + rest@);
            }
            return Some((rest, t));
        },
        _ => {
            assert forall|t: FieldType, rest: Seq<char>| !#[trigger] splits(x@, t, rest) by {
                if splits(x@, t, rest) {
                    lemma_split_facts(x@, t, rest);
                }
            }
            return None;
        },
    };
    let rest = x.substring_char(d + 1, n);
    let t = FieldType { dim: d as u8, ty };
    assert(x@ =~= descriptor_text(t) + rest@);
    Some((rest, t))
}

/// The field type that the whole of `x` describes; none where `x` is not
/// exactly one field descriptor (also where characters follow one).
pub fn parse_field_descriptor(x: &str) -> (r: Option<FieldType>)
    ensures
        match r {
            Some(t) => splits(x@, t, Seq::empty()),
            None => forall|t: FieldType| !#[trigger] splits(x@, t, Seq::empty()),
        },
{
    match parse_field_descriptor_incomplete(x) {
        Some((rest, t)) => {
            if rest.unicode_len() == 0 {
                assert(rest@ =~= Seq::<char>::empty());
                Some(t)
            } else {
                assert forall|t2: FieldType| !#[trigger] splits(x@, t2, Seq::empty()) by {
                    if splits(x@, t2, Seq::empty()) {
                        lemma_descriptor_unique(t, rest@, t2, Seq::empty());
                    }
                }
                None
            }
        },
        None => None,
    }
}

/// Parsing a whole descriptor and rendering the result gives back the
/// input; where a descriptor is followed by more characters, the whole
/// input does not parse, and the only split of it leaves exactly those
/// characters as the rest.
pub proof fn lemma_round_trip(x: Seq<char>, t: FieldType, rest: Seq<char>)
    requires
        splits(x, t, rest),
    ensures
        rest.len() == 0 ==> descriptor_text(t) == x,
        rest.len() > 0 ==> forall|t2: FieldType| !#[trigger] splits(x, t2, Seq::empty()),
        forall|t2: FieldType, r2: Seq<char>| #[trigger] splits(x, t2, r2) ==> r2 == rest,
{
    if rest.len() == 0 {
        assert(x =~= descriptor_text(t));
    }
    assert forall|t2: FieldType, r2: Seq<char>| #[trigger] splits(x, t2, r2) implies r2 == rest by {
        lemma_descriptor_unique(t, rest, t2, r2);
    }
}

/// The Java source name of a class: `/` between package parts becomes `.`.
pub open spec fn dotted(name: Seq<char>) -> Seq<char> {
    name.map_values(|c: char| if c == '/' { '.' } else { c })
}

/// The Java source name of a component type.
pub open spec fn component_java_name(c: ComponentType) -> Seq<char> {
    match c {
        ComponentType::Byte => "byte"@,
        ComponentType::Char => "char"@,
        ComponentType::Double => "double"@,
        ComponentType::Float => "float"@,
        ComponentType::Int => "int"@,
        ComponentType::Long => "long"@,
        ComponentType::Short => "short"@,
        ComponentType::Boolean => "boolean"@,
        ComponentType::Reference(name) => dotted(name@),
    }
}

/// `n` pairs of brackets.
pub open spec fn array_suffix(n: nat) -> Seq<char>
    decreases n,
{
    if n == 0 {
        Seq::empty()
    } else {
        array_suffix((n - 1) as nat) + "[]"@
    }
}

impl FieldType {
    /// The descriptor text of this type, as in `[[D` or `Ljava/lang/Object;`.
    pub fn to_string(&self) -> (r: String)
        ensures
            r@ == descriptor_text(*self),
    {
        let mut s = String::new();
        let mut i: u8 = 0;
        proof {
            reveal_strlit("[");
        }
        while i < self.dim
            invariant
                i <= self.dim,
                s@ == brackets(i as nat),
            decreases self.dim - i,
        {
            s.append("[");
            i += 1;
            proof {
                reveal_strlit("[");
            }
            assert(s@ =~= brackets(i as nat));
        }
        let ghost head = s@;
        match &self.ty {
            ComponentType::Byte => s.append("B"),
            ComponentType::Char => s.append("C"),
            ComponentType::Double => s.append("D"),
            ComponentType::Float => s.append("F"),
            ComponentType::Int => s.append("I"),
            ComponentType::Long => s.append("J"),
            ComponentType::Short => s.append("S"),
            ComponentType::Boolean => s.append("Z"),
            ComponentType::Reference(name) => {
                s.append("L");
                s.append(name.as_str());
                s.append(";");
            },
        }
        proof {
            reveal_strlit("B");
            reveal_strlit("C");
            reveal_strlit("D");
            reveal_strlit("F");
            reveal_strlit("I");
            reveal_strlit("J");
            reveal_strlit("S");
            reveal_strlit("Z");
            reveal_strlit("L");
            reveal_strlit(";");
            assert(s@ =~= descriptor_text(*self));
        }
        s
    }

    /// The Java source name of this type, as in `double[][]` or
    /// `java.lang.Object`.
    pub fn java_name(&self) -> (r: String)
        ensures
            r@ == component_java_name(self.ty) + array_suffix(self.dim as nat),
    {
        let mut s = String::new();
        match &self.ty {
            ComponentType::Byte => s.append("byte"),
            ComponentType::Char => s.append("char"),
            ComponentType::Double => s.append("double"),
            ComponentType::Float => s.append("float"),
            ComponentType::Int => s.append("int"),
            ComponentType::Long => s.append("long"),
            ComponentType::Short => s.append("short"),
            ComponentType::Boolean => s.append("boolean"),
            ComponentType::Reference(name) => {
                let n = name.as_str().unicode_len();
                let mut k: usize = 0;
                proof {
                    reveal_strlit(".");
                }
                while k < n
                    invariant
                        n == name@.len(),
                        k <= n,
                        s@ == dotted(name@.subrange(0, k as int)),
                    decreases n - k,
                {
                    let ghost before = s@;
                    let c = name.as_str().get_char(k);
                    proof {
                        reveal_strlit(".");
                    }
                    if c == '/' {
                        s.append(".");
                    } else {
                        s.append(name.as_str().substring_char(k, k + 1));
                    }
                    assert(s@ =~= before + seq![if c == '/' { '.' } else { c }]);
                    assert(name@.subrange(0, k + 1) =~= name@.subrange(0, k as int).push(c));
                    k += 1;
                    assert(s@ =~= dotted(name@.subrange(0, k as int)));
                }
                assert(name@.subrange(0, n as int) =~= name@);
            },
        }
        assert(s@ == component_java_name(self.ty));
        let ghost head = s@;
        let mut i: u8 = 0;
        while i < self.dim
            invariant
                i <= self.dim,
                s@ == head + array_suffix(i as nat),
            decreases self.dim - i,
        {
            s.append("[]");
            i += 1;
            assert(s@ =~= head + array_suffix(i as nat));
        }
        s
    }
}

} // verus!
