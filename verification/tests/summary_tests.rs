use lessons::shapes::{Button, Draw, Screen, Screen1};
use lessons::summary::{notify_return_trait, NewArticle, Summary, Tweet};

fn sample_tweet() -> Tweet {
    Tweet {
        username: String::from("horse_ebooks"),
        content: String::from("of course, as you probably alread know, people"),
        reply: false,
        retweet: false,
    }
}

#[test]
fn tweet_summaries() {
    let tweet = sample_tweet();
    assert_eq!(tweet.summarize_author(), "@horse_ebooks");
    assert_eq!(
        tweet.summarize(),
        "horse_ebooks: of course, as you probably alread know, people"
    );
}

#[test]
fn article_summaries() {
    let article = NewArticle {
        headline: String::from("Penguins win the Stanley Cup Championship!"),
        location: String::from("Pittsburgh, PA, USA"),
        author: String::from("Iceburgh"),
        content: String::from("The Pittsburgh Penguins once again are the best team."),
    };
    assert_eq!(article.summarize_author(), "@Iceburgh");
    assert_eq!(article.summarize(), "(Read more from @Iceburgh ...)");
}

#[test]
fn returned_article_is_summarizable() {
    let a = notify_return_trait("anything");
    assert_eq!(a.headline, "headline str");
    assert_eq!(a.content, "content text");
    assert_eq!(a.author, "author info");
    assert_eq!(a.location, "location info");
    assert_eq!(a.summarize(), "(Read more from @author info ...)");
}

#[test]
fn screens_draw_their_components() {
    let screen = Screen {
        components: vec![
            Box::new(Button { width: 50, height: 10, label: String::from("OK") }),
            Box::new(Button { width: 80, height: 10, label: String::from("Cancel") }),
        ],
    };
    screen.run();

    let screen1 = Screen1 {
        components: vec![Button { width: 50, height: 10, label: String::from("OK") }],
    };
    screen1.run();
    let first: &dyn Draw = &screen1.components[0];
    first.draw();
}

