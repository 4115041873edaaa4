use pt2itp::{type_us_st, ParsedToken, TokenType, Tokenized, Tokens};

fn tokenized_string(tokenized: Vec<Tokenized>) -> String {
    let tokens: Vec<String> = tokenized
        .into_iter()
        .map(|x| String::from(x.token))
        .collect();
    let token_string = String::from(tokens.join(" ").trim());
    token_string
}

#[test]
fn test_remove_diacritics() {
    let tokens = Tokens::new(Vec::new(), Vec::new(), Vec::new());

    // diacritics are removed from latin text
    assert_eq!(
        tokenized_string(tokens.process(
            &String::from("Hérê àrë søme wöřdš, including diacritics and puncatuation!"),
            &String::from("")
        )),
        String::from("here are some words including diacritics and puncatuation")
    );

    // nothing happens to latin text
    assert_eq!(
        tokenized_string(tokens.process(
            &String::from(
                "Cranberries are low, creeping shrubs or vines up to 2 metres (7 ft)"
            ),
            &String::from("")
        )),
        String::from("cranberries are low creeping shrubs or vines up to 2 metres 7 ft")
    );

    // nothing happens to Japanese text
    assert_eq!(
        tokenized_string(tokens.process(
            &String::from("堪《たま》らん！」と片息《かたいき》になつて、喚《わめ》"),
            &String::from("")
        )),
        String::from("堪《たま》らん！」と片息《かたいき》になつて、喚《わめ》")
    );

    // greek diacritics are removed and other characters stay the same
    assert_eq!(
        tokenized_string(tokens.process(
            &String::from("άΆέΈήΉίΊόΌύΎ αΑεΕηΗιΙοΟυΥ"),
            &String::from("")
        )),
        String::from("άάέέήήίίόόύύ ααεεηηιιοουυ")
    );

    // cyrillic diacritics are removed and other characters stay the same
    assert_eq!(
        tokenized_string(
            tokens.process(&String::from("ўЎёЁѐЀґҐйЙ уУеЕеЕгГиИ"), &String::from(""))
        ),
        String::from("ўўёёѐѐґґйй ууееееггии")
    );
}

#[test]
fn test_tokenize() {
    let tokens = Tokens::new(Vec::new(), Vec::new(), Vec::new());
    assert_eq!(tokenized_string(tokens.process(&String::from(""), &String::from(""))), String::from(""));
    assert_eq!(tokenized_string(tokens.process(&String::from("foo"), &String::from(""))), String::from("foo"));
    assert_eq!(tokenized_string(tokens.process(&String::from(" foo bar"), &String::from(""))), String::from("foo bar"));
    assert_eq!(tokenized_string(tokens.process(&String::from("foo bar "), &String::from(""))), String::from("foo bar"));
    assert_eq!(tokenized_string(tokens.process(&String::from("foo bar"), &String::from(""))), String::from("foo bar"));
    assert_eq!(tokenized_string(tokens.process(&String::from("foo-bar"), &String::from(""))), String::from("foo bar"));
    assert_eq!(tokenized_string(tokens.process(&String::from("foo+bar"), &String::from(""))), String::from("foo bar"));
    assert_eq!(tokenized_string(tokens.process(&String::from("foo_bar"), &String::from(""))), String::from("foo bar"));
    assert_eq!(tokenized_string(tokens.process(&String::from("foo:bar"), &String::from(""))), String::from("foo bar"));
    assert_eq!(tokenized_string(tokens.process(&String::from("foo;bar"), &String::from(""))), String::from("foo bar"));
    assert_eq!(tokenized_string(tokens.process(&String::from("foo|bar"), &String::from(""))), String::from("foo bar"));
    assert_eq!(tokenized_string(tokens.process(&String::from("foo}bar"), &String::from(""))), String::from("foo bar"));
    assert_eq!(tokenized_string(tokens.process(&String::from("foo{bar"), &String::from(""))), String::from("foo bar"));
    assert_eq!(tokenized_string(tokens.process(&String::from("foo[bar"), &String::from(""))), String::from("foo bar"));
    assert_eq!(tokenized_string(tokens.process(&String::from("foo]bar"), &String::from(""))), String::from("foo bar"));
    assert_eq!(tokenized_string(tokens.process(&String::from("foo(bar"), &String::from(""))), String::from("foo bar"));
    assert_eq!(tokenized_string(tokens.process(&String::from("foo)bar"), &String::from(""))), String::from("foo bar"));
    assert_eq!(tokenized_string(tokens.process(&String::from("foo b.a.r"), &String::from(""))), String::from("foo bar"));
    assert_eq!(tokenized_string(tokens.process(&String::from("foo's bar"), &String::from(""))), String::from("foos bar"));
    assert_eq!(tokenized_string(tokens.process(&String::from("San José"), &String::from(""))), String::from("san jose"));
    assert_eq!(tokenized_string(tokens.process(&String::from("A Coruña"), &String::from(""))), String::from("a coruna"));
    assert_eq!(tokenized_string(tokens.process(&String::from("Chamonix-Mont-Blanc"), &String::from(""))), String::from("chamonix mont blanc"));
    assert_eq!(tokenized_string(tokens.process(&String::from("Hale’iwa Road"), &String::from(""))), String::from("haleiwa road"));
    assert_eq!(tokenized_string(tokens.process(&String::from("москва"), &String::from(""))), String::from("москва"));
    assert_eq!(tokenized_string(tokens.process(&String::from("京都市"), &String::from(""))), String::from("京都市"));
    assert_eq!(tokenized_string(tokens.process(&String::from("carrer de l'onze de setembre"), &String::from(""))), String::from("carrer de l onze de setembre"));
}

#[test]
fn test_replacement_tokens() {
    let mut map: Vec<(String, ParsedToken)> = Vec::new();
    let regex_map: Vec<(String, ParsedToken)> = Vec::new();
    map.push((String::from("barter"), ParsedToken::new(String::from("foo"), None)));
    map.push((String::from("saint"), ParsedToken::new(String::from("st"), None)));
    map.push((String::from("street"), ParsedToken::new(String::from("st"), Some(TokenType::Way))));

    let tokens = Tokens::new(map, regex_map, Vec::new());

    assert_eq!(
        tokens.process(&String::from("Main Street"), &String::from("")),
        vec![
            Tokenized::new(String::from("main"), None),
            Tokenized::new(String::from("st"), Some(TokenType::Way))
        ]
    );

    assert_eq!(
        tokens.process(&String::from("Main St"), &String::from("")),
        vec![
            Tokenized::new(String::from("main"), None),
            Tokenized::new(String::from("st"), None)
        ]
    );

    assert_eq!(
        tokens.process(&String::from("foobarter"), &String::from("")),
        vec![Tokenized::new(String::from("foobarter"), None)]
    );

    assert_eq!(
        tokens.process(&String::from("foo barter"), &String::from("")),
        vec![
            Tokenized::new(String::from("foo"), None) // two words -> one word due to deduping of tokens
            ]);
}

#[test]
fn test_de_replacement() {
    let tokens = Tokens::generate(vec![String::from("de")]).unwrap();
    assert_eq!(
        tokens.process(&String::from("Fresenbergstr"), &String::from("DE")),
        vec![Tokenized::new(String::from("fresenberg str"), None),]
    );
}

#[test]
fn test_multi_word_tokens() {
    let tokens = Tokens::generate(vec![String::from("es")]).unwrap();
    assert_eq!(tokens.process(&String::from("Gran Via De Les Corts Catalanes"), &String::from("ES")),
    vec![
        Tokenized::new(String::from("gv"), None),
        Tokenized::new(String::from("de"), Some(TokenType::Determiner)),
        Tokenized::new(String::from("les"), Some(TokenType::Determiner)),
        Tokenized::new(String::from("corts"), None),
        Tokenized::new(String::from("catalanes"), None)
    ]);
    assert_eq!(tokens.process(&String::from("Calle Gran Vía de Colón"), &String::from("ES")),
    vec![
        Tokenized::new(String::from("cl"), Some(TokenType::Way)),
        Tokenized::new(String::from("gv"), None),
        Tokenized::new(String::from("de"), Some(TokenType::Determiner)),
        Tokenized::new(String::from("colon"), None)
    ]);
    assert_eq!(tokens.process(&String::from("carrer de l'onze de setembre"), &String::from("ES")),
    vec![
        Tokenized::new(String::from("cl"), Some(TokenType::Way)),
        Tokenized::new(String::from("de"), Some(TokenType::Determiner)),
        Tokenized::new(String::from("la"), Some(TokenType::Determiner)),
        Tokenized::new(String::from("11"), Some(TokenType::Number)),
        Tokenized::new(String::from("de"), Some(TokenType::Determiner)),
        Tokenized::new(String::from("setembre"), None)
    ]);
    assert_eq!(tokens.process(&String::from("cl onze de setembre"), &String::from("ES")),
    vec![
        Tokenized::new(String::from("cl"), Some(TokenType::Way)),
        Tokenized::new(String::from("11"), Some(TokenType::Number)),
        Tokenized::new(String::from("de"), Some(TokenType::Determiner)),
        Tokenized::new(String::from("setembre"), None)
    ]);
}

#[test]
fn test_generate_tokens() {
    let tokens = Tokens::generate(vec![String::from("en")]).unwrap();

    assert_eq!(
        tokens.process(&String::from("New Jersey Av NW"), &String::from("US")),
        vec![
            Tokenized::new(String::from("new"), None),
            Tokenized::new(String::from("jersey"), None),
            Tokenized::new(String::from("av"), Some(TokenType::Way)),
            Tokenized::new(String::from("nw"), Some(TokenType::Cardinal))
        ]
    );

    assert_eq!(
        tokens.process(&String::from("New Jersey Ave NW"), &String::from("US")),
        vec![
            Tokenized::new(String::from("new"), None),
            Tokenized::new(String::from("jersey"), None),
            Tokenized::new(String::from("av"), Some(TokenType::Way)),
            Tokenized::new(String::from("nw"), Some(TokenType::Cardinal))
        ]
    );

    assert_eq!(
        tokens.process(
            &String::from("New Jersey Avenue Northwest"),
            &String::from("US")
        ),
        vec![
            Tokenized::new(String::from("new"), None),
            Tokenized::new(String::from("jersey"), None),
            Tokenized::new(String::from("av"), Some(TokenType::Way)),
            Tokenized::new(String::from("nw"), Some(TokenType::Cardinal))
        ]
    );

    assert_eq!(
        tokens.process(&String::from("Saint Peter Street"), &String::from("US")),
        vec![
            Tokenized::new(String::from("st"), None),
            Tokenized::new(String::from("peter"), None),
            Tokenized::new(String::from("st"), Some(TokenType::Way))
        ]
    );

    assert_eq!(
        tokens.process(&String::from("St Peter St"), &String::from("US")),
        vec![
            Tokenized::new(String::from("st"), None),
            Tokenized::new(String::from("peter"), None),
            Tokenized::new(String::from("st"), Some(TokenType::Way))
        ]
    );
}

#[test]
fn test_type_us_st() {
    assert_eq!(
        type_us_st(
            &vec![String::from("")],
            vec![Tokenized::new(String::from(""), None)]
        ),
        vec![Tokenized::new(String::from(""), None)]
    );

    // main st
    assert_eq!(
        type_us_st(
            &vec![String::from("main"), String::from("st")],
            vec![
                Tokenized::new(String::from("main"), None),
                Tokenized::new(String::from("st"), None)
            ]
        ),
        vec![
            Tokenized::new(String::from("main"), None),
            Tokenized::new(String::from("st"), Some(TokenType::Way))
        ]
    );
    assert_eq!(
        type_us_st(
            &vec![String::from("main"), String::from("st")],
            vec![
                Tokenized::new(String::from("main"), None),
                Tokenized::new(String::from("st"), Some(TokenType::Way))
            ]
        ),
        vec![
            Tokenized::new(String::from("main"), None),
            Tokenized::new(String::from("st"), Some(TokenType::Way))
        ]
    );

    // st peter st
    assert_eq!(
        type_us_st(
            &vec![
                String::from("st"),
                String::from("peter"),
                String::from("st")
            ],
            vec![
                Tokenized::new(String::from("st"), None),
                Tokenized::new(String::from("peter"), None),
                Tokenized::new(String::from("st"), None)
            ]
        ),
        vec![
            Tokenized::new(String::from("st"), None),
            Tokenized::new(String::from("peter"), None),
            Tokenized::new(String::from("st"), Some(TokenType::Way))
        ]
    );
    assert_eq!(
        type_us_st(
            &vec![
                String::from("st"),
                String::from("peter"),
                String::from("st")
            ],
            vec![
                Tokenized::new(String::from("st"), Some(TokenType::Way)),
                Tokenized::new(String::from("peter"), None),
                Tokenized::new(String::from("st"), Some(TokenType::Way))
            ]
        ),
        vec![
            Tokenized::new(String::from("st"), None),
            Tokenized::new(String::from("peter"), None),
            Tokenized::new(String::from("st"), Some(TokenType::Way))
        ]
    );

    // st peter
    assert_eq!(
        type_us_st(
            &vec![String::from("st"), String::from("peter")],
            vec![
                Tokenized::new(String::from("st"), None),
                Tokenized::new(String::from("peter"), None),
            ]
        ),
        vec![
            Tokenized::new(String::from("st"), Some(TokenType::Way)),
            Tokenized::new(String::from("peter"), None),
        ]
    );
    assert_eq!(
        type_us_st(
            &vec![String::from("st"), String::from("peter")],
            vec![
                Tokenized::new(String::from("st"), Some(TokenType::Way)),
                Tokenized::new(String::from("peter"), None),
            ]
        ),
        vec![
            Tokenized::new(String::from("st"), Some(TokenType::Way)),
            Tokenized::new(String::from("peter"), None),
        ]
    );

    // st peter av
    assert_eq!(
        type_us_st(
            &vec![
                String::from("st"),
                String::from("peter"),
                String::from("av")
            ],
            vec![
                Tokenized::new(String::from("st"), None),
                Tokenized::new(String::from("peter"), None),
                Tokenized::new(String::from("av"), Some(TokenType::Way))
            ]
        ),
        vec![
            Tokenized::new(String::from("st"), None),
            Tokenized::new(String::from("peter"), None),
            Tokenized::new(String::from("av"), Some(TokenType::Way))
        ]
    );
    assert_eq!(
        type_us_st(
            &vec![
                String::from("st"),
                String::from("peter"),
                String::from("av")
            ],
            vec![
                Tokenized::new(String::from("st"), Some(TokenType::Way)),
                Tokenized::new(String::from("peter"), None),
                Tokenized::new(String::from("av"), Some(TokenType::Way))
            ]
        ),
        vec![
            Tokenized::new(String::from("st"), None),
            Tokenized::new(String::from("peter"), None),
            Tokenized::new(String::from("av"), Some(TokenType::Way))
        ]
    );

    // rue st francois st
    assert_eq!(
        type_us_st(
            &vec![
                String::from("rue"),
                String::from("st"),
                String::from("francois"),
                String::from("st")
            ],
            vec![
                Tokenized::new(String::from("rue"), None),
                Tokenized::new(String::from("st"), None),
                Tokenized::new(String::from("francois"), None),
                Tokenized::new(String::from("st"), None)
            ]
        ),
        vec![
            Tokenized::new(String::from("rue"), None),
            Tokenized::new(String::from("st"), None),
            Tokenized::new(String::from("francois"), None),
            Tokenized::new(String::from("st"), Some(TokenType::Way))
        ]
    );
    assert_eq!(
        type_us_st(
            &vec![
                String::from("rue"),
                String::from("st"),
                String::from("francois"),
                String::from("st")
            ],
            vec![
                Tokenized::new(String::from("rue"), None),
                Tokenized::new(String::from("st"), Some(TokenType::Way)),
                Tokenized::new(String::from("francois"), None),
                Tokenized::new(String::from("st"), Some(TokenType::Way))
            ]
        ),
        vec![
            Tokenized::new(String::from("rue"), None),
            Tokenized::new(String::from("st"), None),
            Tokenized::new(String::from("francois"), None),
            Tokenized::new(String::from("st"), Some(TokenType::Way))
        ]
    );
}
